//! JSON documents: the manifests that are handed to the Kubernetes API.

use vstd::prelude::*;

verus! {

/// A JSON value. Of two fields of an object with the same name the later one counts.
#[derive(Debug)]
pub enum Json {
    Null,
    Bool(bool),
    Int(i64),
    Str(String),
    Array(Vec<Json>),
    Object(Vec<(String, Json)>),
}

/// The model of a JSON value.
pub enum Tree {
    Null,
    Bool(bool),
    Int(int),
    Str(Seq<char>),
    Array(Seq<Tree>),
    Object(Map<Seq<char>, Tree>),
}

impl Tree {
    /// An object without fields.
    pub open spec fn object() -> Tree {
        Tree::Object(Map::empty())
    }

    /// The object with one more field; other values stay as they are.
    pub open spec fn with(self, key: Seq<char>, value: Tree) -> Tree {
        match self {
            Tree::Object(fields) => Tree::Object(fields.insert(key, value)),
            other => other,
        }
    }

    /// The object with a field that holds text.
    pub open spec fn with_text(self, key: Seq<char>, value: Seq<char>) -> Tree {
        self.with(key, Tree::Str(value))
    }

    /// A list without items.
    pub open spec fn list() -> Tree {
        Tree::Array(Seq::empty())
    }

    /// The list with one more item; other values stay as they are.
    pub open spec fn item(self, value: Tree) -> Tree {
        match self {
            Tree::Array(items) => Tree::Array(items.push(value)),
            other => other,
        }
    }

    /// The list with one more item, a text.
    pub open spec fn item_text(self, value: Seq<char>) -> Tree {
        self.item(Tree::Str(value))
    }

    /// A field of an object, where it is there.
    pub open spec fn field(self, key: Seq<char>) -> Option<Tree> {
        match self {
            Tree::Object(fields) => if fields.dom().contains(key) {
                Some(fields[key])
            } else {
                None
            },
            _ => None,
        }
    }
}

/// The models of a list of values.
pub open spec fn trees(items: Seq<Json>) -> Seq<Tree>
    decreases items,
{
    if items.len() == 0 {
        Seq::empty()
    } else {
        trees(items.drop_last()).push(items.last().tree())
    }
}

/// The model of the fields of an object.
pub open spec fn fields_of(fields: Seq<(String, Json)>) -> Map<Seq<char>, Tree>
    decreases fields,
{
    if fields.len() == 0 {
        Map::empty()
    } else {
        fields_of(fields.drop_last()).insert(fields.last().0@, fields.last().1.tree())
    }
}

impl Json {
    /// The model of the value.
    pub open spec fn tree(self) -> Tree
        decreases self,
    {
        match self {
            Json::Null => Tree::Null,
            Json::Bool(b) => Tree::Bool(b),
            Json::Int(i) => Tree::Int(i as int),
            Json::Str(s) => Tree::Str(s@),
            Json::Array(items) => Tree::Array(trees(items@)),
            Json::Object(fields) => Tree::Object(fields_of(fields@)),
        }
    }

    /// An object without fields.
    pub fn object() -> (r: Json)
        ensures
            r.tree() == Tree::object(),
    {
        Json::Object(Vec::new())
    }

    /// A list without items.
    pub fn list() -> (r: Json)
        ensures
            r.tree() == Tree::list(),
    {
        Json::Array(Vec::new())
    }

    /// The object with one more field.
    pub fn with(self, key: &str, value: Json) -> (r: Json)
        ensures
            r.tree() == self.tree().with(key@, value.tree()),
    {
        match self {
            Json::Object(fields) => {
                let mut all: Vec<(String, Json)> = fields;
                let ghost earlier = all@;
                all.push((key.to_owned(), value));
                assert(all@.drop_last() =~= earlier);
                Json::Object(all)
            },
            other => other,
        }
    }

    /// The object with a field that holds text.
    pub fn with_text(self, key: &str, value: &str) -> (r: Json)
        ensures
            r.tree() == self.tree().with_text(key@, value@),
    {
        self.with(key, Json::Str(value.to_owned()))
    }

    /// The list with one more item.
    pub fn item(self, value: Json) -> (r: Json)
        ensures
            r.tree() == self.tree().item(value.tree()),
    {
        match self {
            Json::Array(items) => {
                let mut all: Vec<Json> = items;
                let ghost earlier = all@;
                all.push(value);
                assert(all@.drop_last() =~= earlier);
                Json::Array(all)
            },
            other => other,
        }
    }

    /// The list with one more item, a text.
    pub fn item_text(self, value: &str) -> (r: Json)
        ensures
            r.tree() == self.tree().item_text(value@),
    {
        self.item(Json::Str(value.to_owned()))
    }
}

} // verus!
