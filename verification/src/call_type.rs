//! The two kinds of call, and the words that name them in a message record.
use vstd::prelude::*;
use vstd::string::*;

verus! {

/// The two kinds of call a message record can carry.
#[derive(Clone, Copy, Debug, PartialEq, Eq, Structural)]
pub enum CallType {
    Query,
    Update,
}

/// The word that names a query call.
pub open spec fn query_text() -> Seq<char> {
    "query"@
}

/// The word that names an update call.
pub open spec fn update_text() -> Seq<char> {
    "update"@
}

/// The kind of call that a word names, if it names one.
pub open spec fn call_type_of(text: Seq<char>) -> Option<CallType> {
    if text == query_text() {
        Some(CallType::Query)
    } else if text == update_text() {
        Some(CallType::Update)
    } else {
        None
    }
}

/// The two words differ, so a word names at most one kind.
pub proof fn lemma_call_type_words_differ()
    ensures
        query_text() != update_text(),
        call_type_of(query_text()) == Some(CallType::Query),
        call_type_of(update_text()) == Some(CallType::Update),
{
    reveal_strlit("query");
    reveal_strlit("update");
    assert(query_text().len() == 5);
    assert(update_text().len() == 6);
}

/// Whether two texts hold the same characters.
pub fn same_text(a: &str, b: &str) -> (r: bool)
    ensures
        r == (a@ == b@),
{
    let x = String::from_str(a);
    let y = String::from_str(b);
    x == y
}

impl CallType {
    /// The word that names this kind.
    pub open spec fn text(&self) -> Seq<char> {
        match self {
            CallType::Query => query_text(),
            CallType::Update => update_text(),
        }
    }

    /// Whether the call is answered only through a later status check.
    pub fn is_update(&self) -> (r: bool)
        ensures
            r == (*self == CallType::Update),
    {
        match self {
            CallType::Query => false,
            CallType::Update => true,
        }
    }

    /// The word that names this kind: `query` or `update`.
    pub fn to_text(&self) -> (word: String)
        ensures
            word@ == self.text(),
            call_type_of(word@) == Some(*self),
    {
        proof {
            lemma_call_type_words_differ();
        }
        match self {
            CallType::Query => String::from_str("query"),
            CallType::Update => String::from_str("update"),
        }
    }

    /// The kind that a word names: `query` or `update`, and no other word
    /// names one.
    pub fn from_text(word: &str) -> (r: Option<CallType>)
        ensures
            r == call_type_of(word@),
    {
        if same_text(word, "query") {
            Some(CallType::Query)
        } else if same_text(word, "update") {
            Some(CallType::Update)
        } else {
            None
        }
    }
}

} // verus!
