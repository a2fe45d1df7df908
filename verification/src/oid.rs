//! Object ids: the twenty bytes of a SHA-1 git object id, and their hex text.
use vstd::prelude::*;
use crate::error::JoshError;
use crate::text::concat2;

verus! {

/// The value of a hexadecimal digit, as libgit2 reads it (both cases).
pub open spec fn hex_value(c: char) -> Option<nat> {
    if '0' <= c && c <= '9' {
        Some((c as nat - '0' as nat) as nat)
    } else if 'a' <= c && c <= 'f' {
        Some((c as nat - 'a' as nat + 10) as nat)
    } else if 'A' <= c && c <= 'F' {
        Some((c as nat - 'A' as nat + 10) as nat)
    } else {
        None
    }
}

/// Text that parses as an object id: one to forty hexadecimal digits.
pub open spec fn valid_oid_text(s: Seq<char>) -> bool {
    1 <= s.len() <= 40 && forall|i: int| 0 <= i < s.len() ==> (#[trigger] hex_value(s[i])) is Some
}

/// The digit value at position `k` of the text, zero past its end.
pub open spec fn nibble_at(s: Seq<char>, k: int) -> nat {
    if 0 <= k < s.len() {
        match hex_value(s[k]) {
            Some(v) => v,
            None => 0,
        }
    } else {
        0
    }
}

/// The twenty bytes that a valid hex text denotes: digit pairs, high digit first,
/// the text padded with zeros on the right.
pub open spec fn oid_bytes_of_text(s: Seq<char>) -> Seq<u8> {
    Seq::new(20, |i: int| (nibble_at(s, 2 * i) * 16 + nibble_at(s, 2 * i + 1)) as u8)
}

/// The twenty bytes of the null object id.
pub open spec fn zero_bytes() -> Seq<u8> {
    Seq::new(20, |i: int| 0u8)
}

/// The `Debug` text of the git error that `git2::Oid::from_str` gives for a text it
/// refuses.
pub uninterp spec fn git_oid_parse_error(s: Seq<char>) -> Seq<char>;

/// `git2::Oid::from_str`, with the id handed back as its bytes and a refusal as the
/// `Debug` text of git2's error.
///
/// libgit2 (`git_oid_fromstrn`, SHA-1) refuses an empty text, a text longer than forty
/// bytes and a text with a byte that is not a hexadecimal digit; otherwise it sets the
/// id to the digit pairs of the text, padded with zeros. A text of hexadecimal digits
/// is ASCII, so its bytes are its characters. The error of a refusal holds the code
/// `-1`, the class of invalid input and a message that depends on the text alone; its
/// `Debug` text is named, not spelled out.
#[verifier::external_body]
fn git2_oid_from_str(s: &str) -> (r: Result<Vec<u8>, String>)
    ensures
        r is Ok <==> valid_oid_text(s@),
        r matches Ok(b) ==> b@ == oid_bytes_of_text(s@),
        r matches Err(t) ==> t@ == git_oid_parse_error(s@),
{
    match git2::Oid::from_str(s) {
        Ok(oid) => Ok(oid.as_bytes().to_vec()),
        Err(e) => Err(format!("{:?}", e)),
    }
}

/// The message of a converted git error whose `Debug` text is `text`.
pub open spec fn converted(text: Seq<char>) -> Seq<char> {
    "converted "@ + text
}

/// The proxy error for a git error with the `Debug` text `text`: `converted ` and the
/// text.
pub fn converted_error(text: &str) -> (r: JoshError)
    ensures
        r@ == converted(text@),
{
    JoshError(concat2("converted ", text))
}

/// A git object id: twenty bytes.
pub struct Oid {
    bytes: Vec<u8>,
}

impl View for Oid {
    type V = Seq<u8>;

    /// The bytes of the id.
    closed spec fn view(&self) -> Seq<u8> {
        self.bytes@
    }
}

impl Oid {
    #[verifier::type_invariant]
    spec fn twenty_bytes(self) -> bool {
        self.bytes@.len() == 20
    }

    /// The null id, twenty zero bytes (`git2::Oid::zero`).
    pub fn zero() -> (r: Oid)
        ensures
            r@ == zero_bytes(),
    {
        let mut bytes: Vec<u8> = Vec::new();
        let mut i: usize = 0;
        while i < 20
            invariant
                i <= 20,
                bytes@ == Seq::new(i as nat, |k: int| 0u8),
            decreases 20 - i,
        {
            bytes.push(0u8);
            assert(bytes@ =~= Seq::new((i + 1) as nat, |k: int| 0u8));
            i += 1;
        }
        assert(bytes@ =~= zero_bytes());
        Oid { bytes }
    }

    /// The id with the given bytes, if there are twenty of them (`git2::Oid::from_bytes`).
    pub fn from_bytes(b: &[u8]) -> (r: Option<Oid>)
        ensures
            r is Some <==> b@.len() == 20,
            r matches Some(o) ==> o@ == b@,
    {
        if b.len() == 20 {
            let mut bytes: Vec<u8> = Vec::new();
            let mut i: usize = 0;
            while i < b.len()
                invariant
                    i <= b.len() == 20,
                    bytes@ == b@.take(i as int),
                decreases b.len() - i,
            {
                bytes.push(b[i]);
                assert(b@.take(i as int).push(b@[i as int]) =~= b@.take(i + 1));
                i += 1;
            }
            assert(b@.take(20) =~= b@);
            Some(Oid { bytes })
        } else {
            None
        }
    }

    /// The bytes of the id.
    pub fn as_bytes(&self) -> (r: &[u8])
        ensures
            r@ == self@,
            r@.len() == 20,
    {
        proof {
            use_type_invariant(self);
        }
        self.bytes.as_slice()
    }

    /// A copy of the id.
    pub fn duplicate(&self) -> (r: Oid)
        ensures
            r@ == self@,
    {
        proof {
            use_type_invariant(self);
        }
        Oid { bytes: self.bytes.clone() }
    }

    /// The id is the null id (`oid == git2::Oid::zero()`).
    pub fn is_zero(&self) -> (r: bool)
        ensures
            r == (self@ == zero_bytes()),
    {
        proof {
            use_type_invariant(self);
        }
        let mut i: usize = 0;
        while i < self.bytes.len()
            invariant
                i <= self.bytes@.len() == 20,
                forall|k: int| 0 <= k < i ==> self.bytes@[k] == 0u8,
            decreases self.bytes.len() - i,
        {
            if self.bytes[i] != 0 {
                assert(self.bytes@[i as int] != zero_bytes()[i as int]);
                return false;
            }
            i += 1;
        }
        assert(self.bytes@ =~= zero_bytes());
        true
    }

    /// The two ids are the same (`a == b`).
    pub fn same_as(&self, other: &Oid) -> (r: bool)
        ensures
            r == (self@ == other@),
    {
        proof {
            use_type_invariant(self);
            use_type_invariant(other);
        }
        let mut i: usize = 0;
        while i < 20
            invariant
                i <= 20,
                self.bytes@.len() == 20,
                other.bytes@.len() == 20,
                forall|k: int| 0 <= k < i ==> self.bytes@[k] == other.bytes@[k],
            decreases 20 - i,
        {
            if self.bytes[i] != other.bytes[i] {
                return false;
            }
            i += 1;
        }
        assert(self.bytes@ =~= other.bytes@);
        true
    }

    /// Parses the hex text of an id, as `git2::Oid::from_str` does; a git error is
    /// converted to a proxy error.
    pub fn parse(s: &str) -> (r: Result<Oid, JoshError>)
        ensures
            r is Ok <==> valid_oid_text(s@),
            r matches Ok(o) ==> o@ == oid_bytes_of_text(s@),
            r matches Err(e) ==> e@ == converted(git_oid_parse_error(s@)),
    {
        match git2_oid_from_str(s) {
            Ok(b) => {
                let o = Oid::from_bytes(b.as_slice());
                match o {
                    Some(o) => Ok(o),
                    None => {
                        proof {
                            assert(oid_bytes_of_text(s@).len() == 20);
                        }
                        Err(JoshError(String::new()))
                    },
                }
            },
            Err(text) => Err(converted_error(text.as_str())),
        }
    }
}

} // verus!
