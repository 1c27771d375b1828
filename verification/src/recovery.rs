//! The NFSv4 recovery backend.
//!
//! Ganesha's `hcloud` recovery backend talks to it over HTTP. It stores NFSv4 client state in
//! config maps so that after share-manager failover the new ganesha process can restore client
//! locks and delegations during the grace period.
//!
//! - `POST   /v1/recoverybackend`: create the record
//! - `PUT    /v1/recoverybackend/{hostname}`: end grace
//! - `PUT    /v1/recoverybackend/{hostname}/{clientid}`: add client id
//! - `DELETE /v1/recoverybackend/{hostname}/{clientid}`: remove client id
//! - `GET    /v1/recoverybackend/{hostname}`: read client ids
//! - `PUT    /v1/recoverybackend/{hostname}/{clientid}/{revokefh}`: add revoke fh
//!
//! The record of a host is a config map: the annotation `version` names the current epoch, and
//! the data holds, for each epoch, its clients in JSON, each with its revoked file handles.

use vstd::prelude::*;

use crate::cluster::KubeError;
use crate::provision;
use crate::text;
use crate::textmap::TextMap;
use crate::textmap;

verus! {

// ── Answers ──

/// A failed request: the HTTP status and a message.
#[derive(Debug)]
pub struct ApiError {
    pub status: u16,
    pub message: String,
}

/// The model of a failed request.
pub struct HttpError {
    pub status: u16,
    pub message: Seq<char>,
}

impl View for ApiError {
    type V = HttpError;

    open spec fn view(&self) -> HttpError {
        HttpError { status: self.status, message: self.message@ }
    }
}

/// The request cannot be understood.
pub fn bad_request(message: &str) -> (r: ApiError)
    ensures
        r@ == (HttpError { status: 400, message: message@ }),
{
    ApiError { status: 400, message: message.to_owned() }
}

/// The HTTP status that a failed API request is answered with: the code of the API server where
/// it gave one that is a status, 500 otherwise.
pub open spec fn http_status(code: Option<u16>) -> u16 {
    match code {
        Some(c) => if 100 <= c <= 999 {
            c
        } else {
            500
        },
        None => 500,
    }
}

/// Map API errors to the closest HTTP status so ganesha sees real failures (it treats anything
/// but 200 as an error).
pub fn kube_error(e: &KubeError) -> (r: ApiError)
    ensures
        r@ == (HttpError { status: http_status(e.code), message: e.message@ }),
{
    let status: u16 = match e.code {
        Some(c) => {
            if 100 <= c && c <= 999 {
                c
            } else {
                500
            }
        },
        None => 500,
    };
    ApiError { status, message: e.message.clone() }
}

// ── Requests ──

/// The namespace of the records, from `RECOVERY_BACKEND_NAMESPACE`.
pub fn namespace(value: &Option<String>) -> (r: String)
    ensures
        r@ == provision::set_or(*value, "hcloud-csi-rwx"@),
{
    provision::env_or(value, "hcloud-csi-rwx")
}

/// The name of a host's record.
pub open spec fn record_name(hostname: Seq<char>) -> Seq<char> {
    "recovery-backend-"@ + hostname
}

/// The name of a host's record.
pub fn cm_name(hostname: &str) -> (r: String)
    ensures
        r@ == record_name(hostname@),
{
    "recovery-backend-".to_owned().concat(hostname)
}

/// The token that requests have to carry, from `RECOVERY_BACKEND_TOKEN`: none where it is unset
/// or empty, and then everybody is let in.
pub fn required_token(value: Option<String>) -> (r: Option<String>)
    ensures
        match value {
            Some(v) => if v@.len() == 0 {
                r is None
            } else {
                r == value
            },
            None => r is None,
        },
{
    match value {
        Some(v) => {
            if text::is_empty(v.as_str()) {
                None
            } else {
                Some(v)
            }
        },
        None => None,
    }
}

/// Whether a request with this authorization header is let in.
pub open spec fn is_authorized(expected: Option<String>, header: Option<Seq<char>>) -> bool {
    match expected {
        Some(token) => header == Some("Bearer "@ + token@),
        None => true,
    }
}

/// Bearer-token check for all recovery routes. `expected` is `None` where authentication is
/// disabled, `header` where the request has no authorization header that is text.
pub fn require_bearer(expected: &Option<String>, header: Option<&str>) -> (r: Result<(), ApiError>)
    ensures
        r is Ok == is_authorized(
            *expected,
            match header {
                Some(h) => Some(h@),
                None => None,
            },
        ),
        r matches Err(e) ==> e@ == (HttpError {
            status: 401,
            message: "invalid or missing token"@,
        }),
{
    match expected {
        Some(token) => {
            let wanted: String = "Bearer ".to_owned().concat(token.as_str());
            let granted: bool = match header {
                Some(h) => text::same(h, wanted.as_str()),
                None => false,
            };
            if granted {
                Ok(())
            } else {
                Err(ApiError { status: 401, message: "invalid or missing token".to_owned() })
            }
        },
        None => Ok(()),
    }
}

/// A request body without one trailing NUL, which older ganesha builds send.
pub open spec fn without_nul(body: Seq<u8>) -> Seq<u8> {
    if body.len() > 0 && body.last() == 0 {
        body.drop_last()
    } else {
        body
    }
}

/// A request body without one trailing NUL, which older ganesha builds send.
pub fn payload(body: &[u8]) -> (r: Vec<u8>)
    ensures
        r@ == without_nul(body@),
{
    let kept: usize = if body.len() > 0 && body[body.len() - 1] == 0 {
        body.len() - 1
    } else {
        body.len()
    };
    let mut r: Vec<u8> = Vec::new();
    for i in 0..kept
        invariant
            kept <= body@.len(),
            r@ == body@.take(i as int),
    {
        r.push(body[i]);
    }
    assert(body@.take(kept as int) =~= without_nul(body@));
    r
}

/// The body of a request to create a record, whose route has no hostname. Where the route has
/// one, only the version of the body counts.
#[derive(Debug, Clone)]
pub struct RecoveryBackendInput {
    pub hostname: String,
    pub version: String,
}

// ── Records ──

/// The record of a host, as far as it is read.
#[derive(Debug)]
pub struct RecoveryMap {
    pub annotations: TextMap<String>,
    pub data: TextMap<String>,
}

/// What is merged into a record: the entries replace those with the same key, and all others
/// stay.
#[derive(Debug)]
pub struct Patch {
    pub annotations: Option<TextMap<String>>,
    pub data: TextMap<String>,
}

/// A record that is created.
#[derive(Debug)]
pub struct NewRecord {
    pub name: String,
    pub namespace: String,
    pub record: RecoveryMap,
}

/// The model of a record.
pub struct Record {
    pub annotations: Map<Seq<char>, Seq<char>>,
    pub data: Map<Seq<char>, Seq<char>>,
}

/// The model of what is merged into a record.
pub struct Changes {
    pub annotations: Option<Map<Seq<char>, Seq<char>>>,
    pub data: Map<Seq<char>, Seq<char>>,
}

/// The texts of a map.
pub open spec fn texts(m: Map<Seq<char>, String>) -> Map<Seq<char>, Seq<char>> {
    m.map_values(|s: String| s@)
}

/// The lists of a map.
pub open spec fn lists(m: Map<Seq<char>, Vec<String>>) -> Map<Seq<char>, Seq<Seq<char>>> {
    m.map_values(|v: Vec<String>| text::views(v@))
}

impl View for RecoveryMap {
    type V = Record;

    open spec fn view(&self) -> Record {
        Record { annotations: texts(self.annotations@), data: texts(self.data@) }
    }
}

impl View for Patch {
    type V = Changes;

    open spec fn view(&self) -> Changes {
        Changes {
            annotations: match self.annotations {
                Some(a) => Some(texts(a@)),
                None => None,
            },
            data: texts(self.data@),
        }
    }
}

/// The record after the changes are merged into it.
pub open spec fn merged(record: Record, changes: Changes) -> Record {
    Record {
        annotations: match changes.annotations {
            Some(a) => record.annotations.union_prefer_right(a),
            None => record.annotations,
        },
        data: record.data.union_prefer_right(changes.data),
    }
}

/// A text of a map; empty where the key is absent.
pub open spec fn lookup(m: Map<Seq<char>, Seq<char>>, key: Seq<char>) -> Seq<char> {
    if m.dom().contains(key) {
        m[key]
    } else {
        Seq::empty()
    }
}

/// The current epoch of a record.
pub open spec fn version_of(record: Record) -> Seq<char> {
    lookup(record.annotations, "version"@)
}

/// The clients that a text denotes, each with its revoked file handles; nothing where it denotes
/// none.
pub uninterp spec fn parsed_clients(s: Seq<char>) -> Option<Map<Seq<char>, Seq<Seq<char>>>>;

/// The text that denotes these clients.
pub uninterp spec fn clients_text(clients: Map<Seq<char>, Seq<Seq<char>>>) -> Seq<char>;

/// The clients that a parser's result holds.
pub open spec fn parse_result(r: Option<Vec<(String, Vec<String>)>>) -> Option<
    Map<Seq<char>, Seq<Seq<char>>>,
> {
    match r {
        Some(entries) => Some(lists(textmap::map_of(entries@))),
        None => None,
    }
}

/// Calls `serde_json::from_str` for a `BTreeMap<String, Vec<String>>`, whose entries come in
/// ascending order of their keys. The result is named. Of single texts two things are claimed:
/// the empty text denotes nothing, and `{}` denotes no clients.
#[verifier::external_body]
fn parse_clients(s: &str) -> (r: Option<Vec<(String, Vec<String>)>>)
    ensures
        parse_result(r) == parsed_clients(s@),
        r is Some ==> textmap::ascending(r->0@),
        s@.len() == 0 ==> r is None,
        s@ == "{}"@ ==> r is Some && r->0@.len() == 0,
{
    match serde_json::from_str::<std::collections::BTreeMap<String, Vec<String>>>(s) {
        Ok(map) => Some(map.into_iter().collect()),
        Err(_) => None,
    }
}

/// Calls `serde_json::to_string` on a `BTreeMap<String, Vec<String>>` with these entries. It is
/// claimed that it succeeds, since text keys and lists of text always serialize, that the result
/// depends on the map alone, and that reading it gives the map back.
#[verifier::external_body]
fn write_clients(entries: Vec<(String, Vec<String>)>) -> (r: Result<String, String>)
    requires
        textmap::ascending(entries@),
    ensures
        r is Ok,
        r->Ok_0@ == clients_text(lists(textmap::map_of(entries@))),
        parsed_clients(r->Ok_0@) == Some(lists(textmap::map_of(entries@))),
{
    let map: std::collections::BTreeMap<String, Vec<String>> = entries.into_iter().collect();
    match serde_json::to_string(&map) {
        Ok(s) => Ok(s),
        Err(e) => Err(e.to_string()),
    }
}

/// The clients of an epoch; none where the record does not denote any.
pub open spec fn clients(record: Record, version: Seq<char>) -> Map<Seq<char>, Seq<Seq<char>>> {
    match parsed_clients(lookup(record.data, version)) {
        Some(m) => m,
        None => Map::empty(),
    }
}

/// Whether the record holds the epoch without clients, or not at all.
pub open spec fn is_blank(record: Record, version: Seq<char>) -> bool {
    let stored = lookup(record.data, version);
    stored.len() == 0 || stored == "{}"@
}

/// Whether the changes give the epoch these clients, in JSON, and leave all else.
pub open spec fn puts(
    record: Record,
    changes: Changes,
    version: Seq<char>,
    clients: Map<Seq<char>, Seq<Seq<char>>>,
) -> bool {
    &&& changes.annotations is None
    &&& changes.data == record.data.insert(version, clients_text(clients))
    &&& parsed_clients(clients_text(clients)) == Some(clients)
}

/// The clients with one more, which keeps its file handles where it is there already.
pub open spec fn with_client(
    clients: Map<Seq<char>, Seq<Seq<char>>>,
    id: Seq<char>,
) -> Map<Seq<char>, Seq<Seq<char>>> {
    if clients.dom().contains(id) {
        clients
    } else {
        clients.insert(id, Seq::empty())
    }
}

/// The clients with one more revoked file handle of a client, which joins them where it is not
/// there.
pub open spec fn with_handle(
    clients: Map<Seq<char>, Seq<Seq<char>>>,
    id: Seq<char>,
    handle: Seq<char>,
) -> Map<Seq<char>, Seq<Seq<char>>> {
    clients.insert(id, with_client(clients, id)[id].push(handle))
}

proof fn lemma_texts_insert(m: Map<Seq<char>, String>, key: Seq<char>, value: String)
    ensures
        texts(m.insert(key, value)) == texts(m).insert(key, value@),
{
    assert(texts(m.insert(key, value)) =~= texts(m).insert(key, value@));
}

proof fn lemma_texts_remove(m: Map<Seq<char>, String>, key: Seq<char>)
    ensures
        texts(m.remove(key)) == texts(m).remove(key),
{
    assert(texts(m.remove(key)) =~= texts(m).remove(key));
}

proof fn lemma_lists_insert(m: Map<Seq<char>, Vec<String>>, key: Seq<char>, value: Vec<String>)
    ensures
        lists(m.insert(key, value)) == lists(m).insert(key, text::views(value@)),
{
    assert(lists(m.insert(key, value)) =~= lists(m).insert(key, text::views(value@)));
}

proof fn lemma_lists_remove(m: Map<Seq<char>, Vec<String>>, key: Seq<char>)
    ensures
        lists(m.remove(key)) == lists(m).remove(key),
{
    assert(lists(m.remove(key)) =~= lists(m).remove(key));
}

fn text_at(m: &TextMap<String>, key: &str) -> (r: String)
    ensures
        r@ == lookup(texts(m@), key@),
{
    match m.get(key) {
        Some(value) => value.clone(),
        None => {
            let r: String = String::new();
            assert(r@ =~= Seq::<char>::empty());
            r
        },
    }
}

/// The clients that a parser found; none where it found nothing.
pub fn known_clients(parsed: Option<Vec<(String, Vec<String>)>>) -> (r: TextMap<Vec<String>>)
    requires
        parsed matches Some(entries) ==> textmap::ascending(entries@),
    ensures
        lists(r@) == (match parse_result(parsed) {
            Some(m) => m,
            None => Map::empty(),
        }),
{
    match parsed {
        Some(entries) => TextMap::from_entries(entries),
        None => {
            let r: TextMap<Vec<String>> = TextMap::new();
            assert(lists(r@) =~= Map::<Seq<char>, Seq<Seq<char>>>::empty());
            r
        },
    }
}

/// The clients that a text denotes; none where it denotes nothing.
fn clients_in(s: &str) -> (r: TextMap<Vec<String>>)
    ensures
        lists(r@) == (match parsed_clients(s@) {
            Some(m) => m,
            None => Map::empty(),
        }),
        s@.len() == 0 || s@ == "{}"@ ==> lists(r@) == Map::<Seq<char>, Seq<Seq<char>>>::empty(),
{
    let parsed: Option<Vec<(String, Vec<String>)>> = parse_clients(s);
    proof {
        if parsed is Some && parsed->0@.len() == 0 {
            assert(lists(textmap::map_of(parsed->0@)) =~= Map::<
                Seq<char>,
                Seq<Seq<char>>,
            >::empty());
        }
    }
    known_clients(parsed)
}

/// Add a client, which keeps its file handles where it is there already.
pub fn join_client(all: &mut TextMap<Vec<String>>, client_id: &str)
    ensures
        lists(final(all)@) == with_client(lists(old(all)@), client_id@),
{
    if all.get(client_id).is_none() {
        let handles: Vec<String> = Vec::new();
        proof {
            lemma_lists_insert(all@, client_id@, handles);
            assert(text::views(handles@) =~= Seq::<Seq<char>>::empty());
        }
        all.insert(client_id.to_owned(), handles);
    }
}

/// Remove a client and its file handles.
pub fn drop_client(all: &mut TextMap<Vec<String>>, client_id: &str)
    ensures
        lists(final(all)@) == lists(old(all)@).remove(client_id@),
{
    proof {
        lemma_lists_remove(all@, client_id@);
    }
    all.remove(client_id);
}

/// Add a revoked file handle of a client, which joins the others where it is not there.
pub fn revoke_handle(all: &mut TextMap<Vec<String>>, client_id: &str, revoke_fh: &str)
    ensures
        lists(final(all)@) == with_handle(lists(old(all)@), client_id@, revoke_fh@),
{
    let mut handles: Vec<String> = match all.get(client_id) {
        Some(list) => text::copy_list(list),
        None => Vec::new(),
    };
    let ghost known = text::views(handles@);
    let ghost before = lists(all@);
    assert(known =~= with_client(before, client_id@)[client_id@]);
    let handle: String = revoke_fh.to_owned();
    handles.push(handle);
    proof {
        assert(text::views(handles@) =~= known.push(handle@));
        lemma_lists_insert(all@, client_id@, handles);
    }
    all.insert(client_id.to_owned(), handles);
}

/// The clients, in ascending order.
pub fn client_ids(all: &TextMap<Vec<String>>) -> (r: Vec<String>)
    ensures
        textmap::sorted(text::views(r@)),
        forall|id: Seq<char>| #[trigger]
            text::views(r@).contains(id) <==> lists(all@).dom().contains(id),
{
    let ids: Vec<String> = all.keys();
    proof {
        let shown = text::views(ids@);
        assert forall|id: Seq<char>| #[trigger] shown.contains(id) <==> lists(
            all@,
        ).dom().contains(id) by {
            assert(lists(all@).dom().contains(id) <==> all@.dom().contains(id));
        }
    }
    ids
}

/// The changes that give an epoch this text, where its clients could be written as one.
pub fn put_text(cm: RecoveryMap, version: String, written: Result<String, String>) -> (r: Result<
    Patch,
    ApiError,
>)
    ensures
        match written {
            Ok(text) => r matches Ok(patch) && patch@ == (Changes {
                annotations: None,
                data: cm@.data.insert(version@, text@),
            }),
            Err(message) => r matches Err(error) && error@ == (HttpError {
                status: 500,
                message: message@,
            }),
        },
{
    match written {
        Ok(text) => {
            let mut data: TextMap<String> = cm.data;
            proof {
                lemma_texts_insert(data@, version@, text);
            }
            data.insert(version, text);
            Ok(Patch { annotations: None, data })
        },
        Err(message) => Err(ApiError { status: 500, message }),
    }
}

/// The changes that give an epoch these clients.
fn put(cm: RecoveryMap, version: String, clients: TextMap<Vec<String>>) -> (r: Result<
    Patch,
    ApiError,
>)
    ensures
        r matches Ok(patch) && puts(cm@, patch@, version@, lists(clients@)),
{
    let written: Result<String, String> = write_clients(clients.into_entries());
    put_text(cm, version, written)
}

// ── Operations ──

/// The record that a host starts with: its epoch, without clients.
pub fn create(namespace: &str, input: &RecoveryBackendInput) -> (r: NewRecord)
    ensures
        r.name@ == record_name(input.hostname@),
        r.namespace@ == namespace@,
        r.record@.annotations == Map::<Seq<char>, Seq<char>>::empty().insert(
            "version"@,
            input.version@,
        ),
        r.record@.data == Map::<Seq<char>, Seq<char>>::empty().insert(input.version@, "{}"@),
{
    let version: &str = input.version.as_str();
    NewRecord {
        name: cm_name(input.hostname.as_str()),
        namespace: namespace.to_owned(),
        record: RecoveryMap { annotations: one("version", version), data: one(version, "{}") },
    }
}

fn one(key: &str, value: &str) -> (r: TextMap<String>)
    ensures
        texts(r@) == Map::<Seq<char>, Seq<char>>::empty().insert(key@, value@),
{
    let mut r: TextMap<String> = TextMap::new();
    let text: String = value.to_owned();
    proof {
        lemma_texts_insert(r@, key@, text);
        assert(texts(r@) =~= Map::<Seq<char>, Seq<char>>::empty());
    }
    r.insert(key.to_owned(), text);
    r
}

/// What follows the attempt to create a record.
#[derive(Debug)]
pub enum Created {
    /// It is there: answer 200.
    Done,
    /// It was there already: merge this into it.
    Update(Patch),
    /// Answer with this error.
    Refused(ApiError),
}

/// What follows the attempt to create a record, which failed where there is an error. A record
/// that is there already gets the new epoch.
pub fn after_create(failed: &Option<KubeError>, version: &str) -> (r: Created)
    ensures
        match *failed {
            None => r is Done,
            Some(e) => if e.code == Some(409u16) {
                r matches Created::Update(patch) && patch@ == (Changes {
                    annotations: Some(
                        Map::<Seq<char>, Seq<char>>::empty().insert("version"@, version@),
                    ),
                    data: Map::<Seq<char>, Seq<char>>::empty().insert(version@, "{}"@),
                })
            } else {
                r matches Created::Refused(error) && error@ == (HttpError {
                    status: http_status(e.code),
                    message: e.message@,
                })
            },
        },
{
    match failed {
        None => Created::Done,
        Some(e) => {
            if e.has_code(409) {
                Created::Update(
                    Patch {
                        annotations: Some(one("version", version)),
                        data: one(version, "{}"),
                    },
                )
            } else {
                Created::Refused(kube_error(e))
            }
        },
    }
}

/// The changes that make `version` the current epoch: it keeps its clients where it is not the
/// current one already and has some, and starts without clients otherwise.
pub open spec fn epoch_changes(record: Record, version: Seq<char>) -> Changes {
    let others = record.data.remove(version_of(record));
    Changes {
        annotations: Some(record.annotations.insert("version"@, version)),
        data: if others.dom().contains(version) {
            others
        } else {
            others.insert(version, "{}"@)
        },
    }
}

/// End grace: make `version` the current epoch.
pub fn end_grace(cm: RecoveryMap, version: &str) -> (r: Patch)
    ensures
        r@ == epoch_changes(cm@, version@),
{
    let current: String = text_at(&cm.annotations, "version");
    let mut annotations: TextMap<String> = cm.annotations;
    let text: String = version.to_owned();
    proof {
        lemma_texts_insert(annotations@, "version"@, text);
    }
    annotations.insert("version".to_owned(), text);
    let mut data: TextMap<String> = cm.data;
    proof {
        lemma_texts_remove(data@, current@);
    }
    data.remove(current.as_str());
    if data.get(version).is_none() {
        let none: String = "{}".to_owned();
        proof {
            lemma_texts_insert(data@, version@, none);
        }
        data.insert(version.to_owned(), none);
    }
    Patch { annotations: Some(annotations), data }
}

/// Add a client to an epoch.
pub fn add_client_id(cm: RecoveryMap, version: &str, client_id: &str) -> (r: Result<
    Patch,
    ApiError,
>)
    ensures
        r matches Ok(patch) && puts(
            cm@,
            patch@,
            version@,
            with_client(clients(cm@, version@), client_id@),
        ),
        is_blank(cm@, version@) ==> clients(cm@, version@) == Map::<
            Seq<char>,
            Seq<Seq<char>>,
        >::empty(),
{
    let stored: String = text_at(&cm.data, version);
    let mut all: TextMap<Vec<String>> = clients_in(stored.as_str());
    join_client(&mut all, client_id);
    put(cm, version.to_owned(), all)
}

/// Remove a client from the current epoch.
pub fn remove_client_id(cm: RecoveryMap, client_id: &str) -> (r: Result<Patch, ApiError>)
    ensures
        r matches Ok(patch) && puts(
            cm@,
            patch@,
            version_of(cm@),
            clients(cm@, version_of(cm@)).remove(client_id@),
        ),
        is_blank(cm@, version_of(cm@)) ==> clients(cm@, version_of(cm@)) == Map::<
            Seq<char>,
            Seq<Seq<char>>,
        >::empty(),
{
    let version: String = text_at(&cm.annotations, "version");
    let stored: String = text_at(&cm.data, version.as_str());
    let mut all: TextMap<Vec<String>> = clients_in(stored.as_str());
    drop_client(&mut all, client_id);
    put(cm, version, all)
}

/// Add a revoked file handle of a client to an epoch.
pub fn add_revoke_fh(cm: RecoveryMap, version: &str, client_id: &str, revoke_fh: &str) -> (r:
    Result<Patch, ApiError>)
    ensures
        r matches Ok(patch) && puts(
            cm@,
            patch@,
            version@,
            with_handle(clients(cm@, version@), client_id@, revoke_fh@),
        ),
        is_blank(cm@, version@) ==> clients(cm@, version@) == Map::<
            Seq<char>,
            Seq<Seq<char>>,
        >::empty(),
{
    let stored: String = text_at(&cm.data, version);
    let mut all: TextMap<Vec<String>> = clients_in(stored.as_str());
    revoke_handle(&mut all, client_id, revoke_fh);
    put(cm, version.to_owned(), all)
}

/// What a host is told of its record.
#[derive(Debug, Clone)]
pub struct RecoveryBackendStatus {
    pub id: String,
    pub typ: String,
    pub hostname: String,
    pub clients: Vec<String>,
}

/// Read the clients of the current epoch, in ascending order.
pub fn read_client_ids(cm: &RecoveryMap, hostname: &str) -> (r: RecoveryBackendStatus)
    ensures
        r.id@ == hostname@,
        r.typ@ == "recoveryBackendStatus"@,
        r.hostname@ == hostname@,
        textmap::sorted(text::views(r.clients@)),
        forall|id: Seq<char>| #[trigger]
            text::views(r.clients@).contains(id) <==> clients(
                cm@,
                version_of(cm@),
            ).dom().contains(id),
        is_blank(cm@, version_of(cm@)) ==> r.clients@.len() == 0,
{
    let version: String = text_at(&cm.annotations, "version");
    let stored: String = text_at(&cm.data, version.as_str());
    let all: TextMap<Vec<String>> = clients_in(stored.as_str());
    let ids: Vec<String> = client_ids(&all);
    proof {
        let shown = text::views(ids@);
        if ids@.len() > 0 {
            assert(shown.contains(shown[0]));
        }
    }
    RecoveryBackendStatus {
        id: hostname.to_owned(),
        typ: "recoveryBackendStatus".to_owned(),
        hostname: hostname.to_owned(),
        clients: ids,
    }
}

/// What the health route answers.
pub fn healthz() -> (r: String)
    ensures
        r@ == "ok"@,
{
    "ok".to_owned()
}

// ── Laws ──

/// Clients that are put into an epoch are read back from it, the current epoch stays the same,
/// and all other epochs keep their clients.
pub proof fn law_clients_are_read_back(
    record: Record,
    changes: Changes,
    version: Seq<char>,
    put: Map<Seq<char>, Seq<Seq<char>>>,
    other: Seq<char>,
)
    requires
        puts(record, changes, version, put),
    ensures
        clients(merged(record, changes), version) == put,
        version_of(merged(record, changes)) == version_of(record),
        other != version ==> clients(merged(record, changes), other) == clients(record, other),
{
    let after = merged(record, changes);
    assert(after.annotations =~= record.annotations);
    assert(after.data =~= changes.data);
}

/// A client that is added to the current epoch is listed, and so is every client that was.
pub proof fn law_added_clients_are_listed(
    record: Record,
    changes: Changes,
    id: Seq<char>,
    other: Seq<char>,
)
    requires
        puts(
            record,
            changes,
            version_of(record),
            with_client(clients(record, version_of(record)), id),
        ),
    ensures
        ({
            let before = clients(record, version_of(record));
            let after = clients(merged(record, changes), version_of(merged(record, changes)));
            &&& after.dom().contains(id)
            &&& before.dom().contains(other) ==> after.dom().contains(other) && after[other]
                == before[other]
            &&& other != id ==> (after.dom().contains(other) <==> before.dom().contains(other))
        }),
{
    let version = version_of(record);
    law_clients_are_read_back(
        record,
        changes,
        version,
        with_client(clients(record, version), id),
        version,
    );
}

/// A client that is removed is no longer listed, and all others still are.
pub proof fn law_removed_clients_are_not_listed(
    record: Record,
    changes: Changes,
    id: Seq<char>,
    other: Seq<char>,
)
    requires
        puts(
            record,
            changes,
            version_of(record),
            clients(record, version_of(record)).remove(id),
        ),
    ensures
        ({
            let before = clients(record, version_of(record));
            let after = clients(merged(record, changes), version_of(merged(record, changes)));
            &&& !after.dom().contains(id)
            &&& other != id ==> (after.dom().contains(other) <==> before.dom().contains(other))
        }),
{
    let version = version_of(record);
    law_clients_are_read_back(
        record,
        changes,
        version,
        clients(record, version).remove(id),
        version,
    );
}

/// Adding a client twice is the same as adding it once, and adding one that was not there and
/// removing it again leaves the clients as they were.
pub proof fn law_adding_is_idempotent_and_undone(
    before: Map<Seq<char>, Seq<Seq<char>>>,
    id: Seq<char>,
)
    ensures
        with_client(with_client(before, id), id) == with_client(before, id),
        !before.dom().contains(id) ==> with_client(before, id).remove(id) == before,
{
    if !before.dom().contains(id) {
        assert(with_client(before, id).remove(id) =~= before);
    }
}

/// A revoked file handle comes last in the list of its client, behind those that were there, and
/// no other client is touched.
pub proof fn law_revoked_handles_are_kept_in_order(
    before: Map<Seq<char>, Seq<Seq<char>>>,
    id: Seq<char>,
    handle: Seq<char>,
    other: Seq<char>,
)
    ensures
        with_handle(before, id, handle).dom().contains(id),
        with_handle(before, id, handle)[id].last() == handle,
        before.dom().contains(id) ==> with_handle(before, id, handle)[id].drop_last()
            == before[id],
        other != id && before.dom().contains(other) ==> with_handle(before, id, handle)[other]
            == before[other],
{
    if before.dom().contains(id) {
        assert(with_handle(before, id, handle)[id].drop_last() =~= before[id]);
    }
}

/// After grace has ended the epoch is the new one. It keeps what was recorded for it, and starts
/// with `{}` where nothing was or where it was the current one already.
pub proof fn law_ending_grace_switches_the_epoch(record: Record, version: Seq<char>)
    ensures
        ({
            let after = merged(record, epoch_changes(record, version));
            &&& version_of(after) == version
            &&& lookup(after.data, version) == (if record.data.dom().contains(version) && version
                != version_of(record) {
                record.data[version]
            } else {
                "{}"@
            })
        }),
{
}

/// A record that a host starts with, or that gets a new epoch on its creation, has that epoch,
/// with `{}` as its clients.
pub proof fn law_creation_sets_the_epoch(record: Record, version: Seq<char>)
    ensures
        ({
            let changes = Changes {
                annotations: Some(
                    Map::<Seq<char>, Seq<char>>::empty().insert("version"@, version),
                ),
                data: Map::<Seq<char>, Seq<char>>::empty().insert(version, "{}"@),
            };
            let after = merged(record, changes);
            version_of(after) == version && lookup(after.data, version) == "{}"@
        }),
{
}

} // verus!
