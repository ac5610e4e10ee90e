use vstd::prelude::*;

verus! {

/// The compact JSON text of the value that `serde_json` parses from `text`
/// (as a `serde_json::Value`), or `None` where it refuses the text.
pub uninterp spec fn json_normal_form(text: Seq<char>) -> Option<Seq<char>>;

/// Parses `text` with `serde_json::from_str` into a `serde_json::Value` and
/// renders the value with its `Display` impl (compact JSON). The contract
/// claims only that the outcome is the named result for this text: `None`
/// exactly when `serde_json` refuses it.
#[verifier::external_body]
fn parse_and_render_json(text: &str) -> (r: Option<String>)
    ensures
        match r {
            Some(s) => json_normal_form(text@) == Some(s@),
            None => json_normal_form(text@) is None,
        },
{
    match serde_json::from_str::<serde_json::Value>(text) {
        Ok(value) => Some(value.to_string()),
        Err(_) => None,
    }
}

/// A piece of stored data that is given, and read back, as text.
pub trait Entry: Sized + 'static {
    /// The texts that an entry accepts.
    spec fn accepts(text: Seq<char>) -> bool;

    /// What an entry holds after it takes `text`.
    spec fn content_of(text: Seq<char>) -> Seq<char>;

    /// What the entry holds.
    spec fn content(&self) -> Seq<char>;

    /// An entry that holds `json`.
    fn new(json: String) -> (r: Self)
        requires
            Self::accepts(json@),
        ensures
            r.content() == Self::content_of(json@),
    ;

    /// What the entry holds, as text.
    fn get(&self) -> (r: String)
        ensures
            r@ == self.content(),
    ;

    /// Replaces what the entry holds with `data`.
    fn set(&mut self, data: String)
        requires
            Self::accepts(data@),
        ensures
            final(self).content() == Self::content_of(data@),
    ;
}

/// An entry of JSON data: it holds the compact text of the JSON value it
/// was given.
pub struct SerdeJsonEntry {
    data: String,
}

impl Entry for SerdeJsonEntry {
    open spec fn accepts(text: Seq<char>) -> bool {
        json_normal_form(text) is Some
    }

    open spec fn content_of(text: Seq<char>) -> Seq<char> {
        json_normal_form(text)->0
    }

    closed spec fn content(&self) -> Seq<char> {
        self.data@
    }

    fn new(json: String) -> (r: Self) {
        match parse_and_render_json(json.as_str()) {
            Some(data) => SerdeJsonEntry { data },
            None => {
                assert(false);
                SerdeJsonEntry { data: String::new() }
            },
        }
    }

    fn get(&self) -> (r: String) {
        self.data.clone()
    }

    fn set(&mut self, data: String) {
        match parse_and_render_json(data.as_str()) {
            Some(d) => {
                self.data = d;
            },
            None => {
                assert(false);
            },
        }
    }
}

impl SerdeJsonEntry {
    /// An entry holding `json`, or `None` where `json` is not JSON.
    pub fn parse(json: String) -> (r: Option<Self>)
        ensures
            match r {
                Some(e) => Self::accepts(json@) && e.content() == Self::content_of(json@),
                None => !Self::accepts(json@),
            },
    {
        match parse_and_render_json(json.as_str()) {
            Some(_) => Some(<SerdeJsonEntry as Entry>::new(json)),
            None => None,
        }
    }

    /// Replaces what the entry holds with `data` where `data` is JSON (and
    /// returns `true`); otherwise leaves the entry as it was (and returns `false`).
    pub fn try_set(&mut self, data: String) -> (r: bool)
        ensures
            r == Self::accepts(data@),
            r ==> final(self).content() == Self::content_of(data@),
            !r ==> final(self).content() == old(self).content(),
    {
        match parse_and_render_json(data.as_str()) {
            Some(_) => {
                self.set(data);
                true
            },
            None => false,
        }
    }
}

} // verus!
