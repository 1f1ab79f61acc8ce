use vstd::prelude::*;

verus! {

/// The normalized name of a package.
#[derive(Clone, Debug, PartialEq, Eq, Hash)]
pub struct PackageName {
    name: String,
}

impl View for PackageName {
    type V = Seq<char>;

    closed spec fn view(&self) -> Seq<char> {
        self.name@
    }
}

/// The characters that separate the words of a package name.
pub open spec fn is_separator(c: char) -> bool {
    c == '-' || c == '_' || c == '.'
}

/// An ASCII letter or digit.
pub open spec fn is_alphanumeric(c: char) -> bool {
    ('a' <= c && c <= 'z') || ('A' <= c && c <= 'Z') || ('0' <= c && c <= '9')
}

/// A name is valid when it is not empty, holds only ASCII letters, digits and
/// separators, and starts and ends with a letter or digit.
pub open spec fn is_valid_name(s: Seq<char>) -> bool {
    &&& s.len() > 0
    &&& forall|i: int| 0 <= i < s.len() ==> is_alphanumeric(#[trigger] s[i]) || is_separator(s[i])
    &&& is_alphanumeric(s[0])
    &&& is_alphanumeric(s[s.len() - 1])
}

/// The ASCII lowercase form of a character.
pub open spec fn ascii_lower(c: char) -> char {
    if 'A' <= c && c <= 'Z' {
        ((c as u8) + 32) as char
    } else {
        c
    }
}

/// The normalized form of a name: letters in lowercase, and each run of
/// separators replaced by a single `-`.
pub open spec fn normalize(s: Seq<char>) -> Seq<char>
    decreases s.len(),
{
    if s.len() == 0 {
        Seq::empty()
    } else {
        let prefix = normalize(s.drop_last());
        let c = s.last();
        if is_separator(c) {
            if s.len() > 1 && is_separator(s[s.len() - 2]) {
                prefix
            } else {
                prefix.push('-')
            }
        } else {
            prefix.push(ascii_lower(c))
        }
    }
}

/// A package name that is not valid; holds the name as it was given.
#[derive(Clone, Debug, PartialEq, Eq)]
pub struct InvalidNameError {
    pub name: String,
}

/// Relies on `String::push`: appends one character.
#[verifier::external_body]
fn push_char(s: &mut String, c: char)
    ensures
        final(s)@ == old(s)@.push(c),
{
    s.push(c)
}

fn is_separator_char(c: char) -> (r: bool)
    ensures
        r == is_separator(c),
{
    c == '-' || c == '_' || c == '.'
}

fn is_alphanumeric_char(c: char) -> (r: bool)
    ensures
        r == is_alphanumeric(c),
{
    ('a' <= c && c <= 'z') || ('A' <= c && c <= 'Z') || ('0' <= c && c <= '9')
}

fn lower_char(c: char) -> (r: char)
    ensures
        r == ascii_lower(c),
{
    if 'A' <= c && c <= 'Z' {
        ((c as u8) + 32) as char
    } else {
        c
    }
}

impl PackageName {
    /// A copy of this name.
    pub fn duplicate(&self) -> (r: PackageName)
        ensures
            r@ == self@,
    {
        PackageName { name: self.name.clone() }
    }

    /// Validates a package name and brings it into normalized form, so that
    /// names that differ only in case or in their separators compare equal.
    pub fn new(name: &str) -> (r: Result<PackageName, InvalidNameError>)
        ensures
            is_valid_name(name@) <==> r is Ok,
            r matches Ok(n) ==> n@ == normalize(name@),
            r matches Err(e) ==> e.name@ == name@,
    {
        let n = name.unicode_len();
        let mut normalized = String::new();
        let mut i: usize = 0;
        while i < n
            invariant
                n == name@.len(),
                i <= n,
                normalized@ == normalize(name@.subrange(0, i as int)),
                forall|j: int|
                    0 <= j < i ==> is_alphanumeric(#[trigger] name@[j]) || is_separator(name@[j]),
                i > 0 ==> is_alphanumeric(name@[0]),
            decreases n - i,
        {
            let c = name.get_char(i);
            proof {
                assert(name@.subrange(0, i + 1).drop_last() =~= name@.subrange(0, i as int));
            }
            if is_separator_char(c) {
                if i == 0 {
                    return Err(InvalidNameError { name: String::from_str(name) });
                }
                if !is_separator_char(name.get_char(i - 1)) {
                    push_char(&mut normalized, '-');
                }
            } else if is_alphanumeric_char(c) {
                push_char(&mut normalized, lower_char(c));
            } else {
                proof {
                    assert(!is_valid_name(name@));
                }
                return Err(InvalidNameError { name: String::from_str(name) });
            }
            i = i + 1;
        }
        if n == 0 || !is_alphanumeric_char(name.get_char(n - 1)) {
            return Err(InvalidNameError { name: String::from_str(name) });
        }
        proof {
            assert(name@.subrange(0, n as int) =~= name@);
        }
        Ok(PackageName { name: normalized })
    }

    /// The normalized name as a string.
    pub fn as_str(&self) -> (r: &str)
        ensures
            r@ == self@,
    {
        self.name.as_str()
    }
}

/// The location of a package registry.
#[derive(Clone, Debug, PartialEq, Eq, Hash)]
pub struct IndexUrl {
    url: String,
}

impl View for IndexUrl {
    type V = Seq<char>;

    closed spec fn view(&self) -> Seq<char> {
        self.url@
    }
}

impl IndexUrl {
    /// An index at the given canonical location.
    pub fn new(url: &str) -> (r: IndexUrl)
        ensures
            r@ == url@,
    {
        IndexUrl { url: String::from_str(url) }
    }

    /// The location as a string.
    pub fn as_str(&self) -> (r: &str)
        ensures
            r@ == self@,
    {
        self.url.as_str()
    }

    /// The location rendered as an owned string.
    pub fn to_string(&self) -> (r: String)
        ensures
            r@ == self@,
    {
        self.url.clone()
    }

    /// Whether both denote the same registry location.
    pub fn same_location(&self, other: &IndexUrl) -> (r: bool)
        ensures
            r == (self@ == other@),
    {
        self.url == other.url
    }
}

} // verus!
