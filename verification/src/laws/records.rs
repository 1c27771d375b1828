//! What the recovery backend keeps, and for whom.

use vstd::prelude::*;

use crate::laws::words;
use crate::recovery::{Changes, Record};
use crate::recovery;

verus! {

/// Every host has its own record: the name of a record is a fixed word and the whole hostname, so
/// that different hosts have records of different names.
pub proof fn law_hosts_have_their_own_records(a: Seq<char>, b: Seq<char>)
    ensures
        recovery::record_name(a) == "recovery-backend-"@ + a,
        a != b ==> recovery::record_name(a) != recovery::record_name(b),
{
    words::lemma_same_tail("recovery-backend-"@, a, b);
}

/// What a record holds of an epoch is what its own entry says, whatever the other entries are.
pub proof fn law_epochs_do_not_mix(a: Record, b: Record, version: Seq<char>)
    requires
        a.data.dom().contains(version) == b.data.dom().contains(version),
        a.data.dom().contains(version) ==> a.data[version] == b.data[version],
    ensures
        recovery::clients(a, version) == recovery::clients(b, version),
{
}

/// The current epoch of a record is what its annotation says.
pub proof fn law_the_annotation_names_the_epoch(record: Record)
    ensures
        record.annotations.dom().contains("version"@) ==> recovery::version_of(record)
            == record.annotations["version"@],
        !record.annotations.dom().contains("version"@) ==> recovery::version_of(record).len() == 0,
{
}

/// Clients that are put into an epoch are read back from it. Other epochs, and the annotations, are
/// as they were.
pub proof fn law_puts_touch_one_epoch(
    record: Record,
    changes: Changes,
    version: Seq<char>,
    put: Map<Seq<char>, Seq<Seq<char>>>,
    other: Seq<char>,
)
    requires
        recovery::puts(record, changes, version, put),
        other != version,
    ensures
        recovery::clients(recovery::merged(record, changes), version) == put,
        recovery::merged(record, changes).annotations == record.annotations,
        recovery::merged(record, changes).data.dom().contains(other)
            == record.data.dom().contains(other),
        record.data.dom().contains(other) ==> recovery::merged(record, changes).data[other]
            == record.data[other],
        changes.annotations is None,
{
    recovery::law_clients_are_read_back(record, changes, version, put, other);
}

/// Adding a client makes it one of the clients, without file handles where it is new. All others
/// are as they were, and so is the client where it was there.
pub proof fn law_adding_adds_one_client(
    before: Map<Seq<char>, Seq<Seq<char>>>,
    id: Seq<char>,
    other: Seq<char>,
)
    ensures
        recovery::with_client(before, id).dom().contains(id),
        !before.dom().contains(id) ==> recovery::with_client(before, id)[id].len() == 0,
        other != id || before.dom().contains(id) ==> recovery::with_client(
            before,
            id,
        ).dom().contains(other) == before.dom().contains(other),
        before.dom().contains(other) ==> recovery::with_client(before, id)[other] == before[other],
{
}

/// Revoking a file handle adds it behind those of its client, who joins the clients where it was
/// not one. All others are as they were.
pub proof fn law_revoking_adds_one_handle(
    before: Map<Seq<char>, Seq<Seq<char>>>,
    id: Seq<char>,
    handle: Seq<char>,
    other: Seq<char>,
)
    requires
        other != id,
    ensures
        ({
            let after = recovery::with_handle(before, id, handle);
            let known = if before.dom().contains(id) {
                before[id]
            } else {
                Seq::<Seq<char>>::empty()
            };
            &&& after.dom().contains(id)
            &&& after[id] == known.push(handle)
            &&& after.dom().contains(other) == before.dom().contains(other)
            &&& before.dom().contains(other) ==> after[other] == before[other]
        }),
{
    if !before.dom().contains(id) {
        assert(recovery::with_client(before, id)[id] =~= Seq::<Seq<char>>::empty());
    }
}

/// When grace ends the new epoch becomes the current one and the old one is not written any more.
/// Every other annotation and every other epoch is written as it was.
pub proof fn law_ending_grace_keeps_the_rest(
    record: Record,
    version: Seq<char>,
    key: Seq<char>,
    epoch: Seq<char>,
)
    requires
        key != "version"@,
        epoch != version,
        epoch != recovery::version_of(record),
    ensures
        ({
            let changes = recovery::epoch_changes(record, version);
            let notes = changes.annotations->0;
            let old_epoch = recovery::version_of(record);
            &&& changes.annotations is Some
            &&& notes.dom().contains("version"@) && notes["version"@] == version
            &&& notes.dom().contains(key) == record.annotations.dom().contains(key)
            &&& record.annotations.dom().contains(key) ==> notes[key] == record.annotations[key]
            &&& changes.data.dom().contains(epoch) == record.data.dom().contains(epoch)
            &&& record.data.dom().contains(epoch) ==> changes.data[epoch] == record.data[epoch]
            &&& old_epoch != version ==> !changes.data.dom().contains(old_epoch)
            &&& changes.data.dom().contains(version)
            &&& version != old_epoch && record.data.dom().contains(version) ==> changes.data[version]
                == record.data[version]
            &&& version == old_epoch || !record.data.dom().contains(version)
                ==> changes.data[version] == "{}"@
        }),
{
}

// ── Who may ask, and what is answered ──

/// Where a token is set only the header that carries it is let in: a request without a header is
/// refused, and no header suits two different tokens. Where none is set everybody is let in.
pub proof fn law_the_token_is_required(
    a: Option<String>,
    b: Option<String>,
    header: Option<Seq<char>>,
)
    ensures
        a is None ==> recovery::is_authorized(a, header),
        a is Some && header is None ==> !recovery::is_authorized(a, header),
        a is Some && recovery::is_authorized(a, header) ==> header == Some("Bearer "@ + a->0@),
        a is Some ==> recovery::is_authorized(a, Some("Bearer "@ + a->0@)),
        a is Some && b is Some && a->0@ != b->0@ && recovery::is_authorized(a, header)
            ==> !recovery::is_authorized(b, header),
{
    if a is Some && b is Some {
        words::lemma_same_tail("Bearer "@, a->0@, b->0@);
    }
}

/// A failed request is answered with the code of the API server where that is an HTTP status, and
/// with 500 otherwise.
pub proof fn law_failures_keep_their_status(code: u16)
    ensures
        100 <= code <= 999 ==> recovery::http_status(Some(code)) == code,
        code < 100 || code > 999 ==> recovery::http_status(Some(code)) == 500,
        recovery::http_status(None) == 500,
{
}

/// One trailing NUL of a body does not count, and nothing else is taken from it.
pub proof fn law_one_nul_is_taken(body: Seq<u8>)
    ensures
        recovery::without_nul(body.push(0)) == body,
        body.len() == 0 || body.last() != 0 ==> recovery::without_nul(body) == body,
{
    assert(body.push(0).drop_last() =~= body);
}

} // verus!
