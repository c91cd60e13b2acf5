use vstd::prelude::*;
use crate::string_map::{StringMap, keys_distinct, map_of};

verus! {

/// `c` with an ASCII capital letter mapped to its small letter.
pub open spec fn ascii_lower_char(c: char) -> char {
    if 'A' <= c && c <= 'Z' {
        ((c as u32) + 32) as char
    } else {
        c
    }
}

/// `s` with every ASCII capital letter mapped to its small letter.
pub open spec fn ascii_lowercase(s: Seq<char>) -> Seq<char> {
    s.map_values(|c: char| ascii_lower_char(c))
}

/// A string with no ASCII capital letter is its own lower case.
pub proof fn lemma_lowercase_of_lowercase(s: Seq<char>)
    requires
        forall|i: int| 0 <= i < s.len() ==> !('A' <= #[trigger] s[i] && s[i] <= 'Z'),
    ensures
        ascii_lowercase(s) == s,
{
    assert(ascii_lowercase(s) =~= s);
}

/// Relies on str::to_ascii_lowercase: ASCII letters 'A' to 'Z' become 'a' to
/// 'z' and every other character is kept.
#[verifier::external_body]
fn lowercase_ascii(s: &str) -> (r: String)
    ensures
        r@ == ascii_lowercase(s@),
{
    s.to_ascii_lowercase()
}

/// HTTP header fields: names are stored in ASCII lower case, and a second
/// field with the same name replaces the first.
#[derive(Debug, PartialEq, Eq)]
pub struct Headers {
    fields: StringMap,
}

impl View for Headers {
    type V = Map<Seq<char>, Seq<char>>;

    closed spec fn view(&self) -> Map<Seq<char>, Seq<char>> {
        self.fields@
    }
}

impl Headers {
    /// Well-formed: the underlying map is.
    pub closed spec fn wf(&self) -> bool {
        self.fields.wf()
    }

    /// No header fields.
    pub fn new() -> (r: Self)
        ensures
            r.wf(),
            r@ == Map::<Seq<char>, Seq<char>>::empty(),
    {
        Headers { fields: StringMap::new() }
    }

    /// Sets the field `name` (in lower case) to `value`.
    pub fn insert(&mut self, name: &str, value: String)
        requires
            old(self).wf(),
        ensures
            final(self).wf(),
            final(self)@ == old(self)@.insert(ascii_lowercase(name@), value@),
    {
        let key = lowercase_ascii(name);
        self.fields.insert(key, value);
    }

    /// The value of the field `name`, matched without regard to ASCII case.
    pub fn get(&self, name: &str) -> (r: Option<&String>)
        requires
            self.wf(),
        ensures
            match r {
                Some(v) => self@.contains_key(ascii_lowercase(name@)) && self@[ascii_lowercase(
                    name@,
                )] == v@,
                None => !self@.contains_key(ascii_lowercase(name@)),
            },
    {
        let key = lowercase_ascii(name);
        self.fields.get(key.as_str())
    }

    /// Whether the field `name` is set, matched without regard to ASCII case.
    pub fn contains_key(&self, name: &str) -> (r: bool)
        requires
            self.wf(),
        ensures
            r == self@.contains_key(ascii_lowercase(name@)),
    {
        self.get(name).is_some()
    }

    /// How many fields are set.
    pub fn len(&self) -> (r: usize)
        requires
            self.wf(),
        ensures
            r == self@.len(),
    {
        self.fields.len()
    }

    /// The fields as (name, value) pairs, in the order in which each name was
    /// first set.
    pub fn entries(&self) -> (r: &Vec<(String, String)>)
        requires
            self.wf(),
        ensures
            keys_distinct(r@),
            map_of(r@) == self@,
    {
        self.fields.entries()
    }
}

impl Clone for Headers {
    fn clone(&self) -> (r: Self)
        ensures
            r.wf(),
            r@ == self@,
    {
        Headers { fields: self.fields.clone() }
    }
}

} // verus!
