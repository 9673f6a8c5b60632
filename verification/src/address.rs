use vstd::prelude::*;
use vstd::string::StringSliceAdditionalSpecFns;

verus! {

/// Whether `c` is an ASCII hexadecimal digit.
pub open spec fn is_hex_digit(c: u8) -> bool {
    (48 <= c && c <= 57) || (65 <= c && c <= 70) || (97 <= c && c <= 102)
}

/// The numeric value of an ASCII hexadecimal digit.
pub open spec fn hex_value(c: u8) -> u8 {
    if 48 <= c && c <= 57 {
        (c - 48) as u8
    } else if 65 <= c && c <= 70 {
        (c - 55) as u8
    } else {
        (c - 87) as u8
    }
}

/// Whether `s` is a canonical address string: the prefix `0x` followed by
/// exactly forty hexadecimal digits, denoting twenty bytes.
pub open spec fn is_canonical_address(s: Seq<u8>) -> bool {
    s.len() == 42 && s[0] == 48 && s[1] == 120 && (forall|i: int|
        2 <= i < 42 ==> is_hex_digit(#[trigger] s[i]))
}

/// The twenty bytes that a canonical address string denotes.
pub open spec fn address_bytes_of(s: Seq<u8>) -> Seq<u8> {
    Seq::new(20, |i: int| (hex_value(s[2 + 2 * i]) * 16 + hex_value(s[3 + 2 * i])) as u8)
}

/// A fixed-width network identifier for an account or a contract:
/// twenty bytes, obtained only by parsing a canonical address string.
#[derive(Debug)]
pub struct Address {
    pub bytes: Vec<u8>,
}

/// The numeric value of one hexadecimal digit, or `None` for any other byte.
fn hex_digit_value(c: u8) -> (r: Option<u8>)
    ensures
        r is Some <==> is_hex_digit(c),
        r is Some ==> r->0 == hex_value(c) && r->0 < 16,
{
    if 48 <= c && c <= 57 {
        Some(c - 48)
    } else if 65 <= c && c <= 70 {
        Some(c - 55)
    } else if 97 <= c && c <= 102 {
        Some(c - 87)
    } else {
        None
    }
}

impl Address {
    /// A well-formed address holds exactly twenty bytes.
    pub open spec fn wf(self) -> bool {
        self.bytes@.len() == 20
    }

    /// Parses a canonical address string. Total over all inputs: any string
    /// that is not exactly `0x` followed by forty hexadecimal digits is
    /// rejected, and a canonical string yields exactly the bytes it denotes.
    pub fn parse(s: &str) -> (r: Option<Address>)
        ensures
            r is Some <==> is_canonical_address(s.spec_bytes()),
            r is Some ==> r->0.wf() && r->0.bytes@ =~= address_bytes_of(s.spec_bytes()),
    {
        Self::parse_ascii(s.as_bytes())
    }

    /// Parses a canonical address string given as ASCII bytes.
    pub fn parse_ascii(b: &[u8]) -> (r: Option<Address>)
        ensures
            r is Some <==> is_canonical_address(b@),
            r is Some ==> r->0.wf() && r->0.bytes@ =~= address_bytes_of(b@),
    {
        if b.len() != 42 {
            return None;
        }
        if b[0] != 48 || b[1] != 120 {
            return None;
        }
        let mut out: Vec<u8> = Vec::new();
        let mut i: usize = 0;
        while i < 20
            invariant
                b@.len() == 42,
                i <= 20,
                out@.len() == i,
                forall|j: int| 2 <= j < 2 + 2 * i ==> is_hex_digit(#[trigger] b@[j]),
                forall|j: int|
                    0 <= j < i ==> out@[j] == (hex_value(b@[2 + 2 * j]) * 16 + hex_value(
                        b@[3 + 2 * j],
                    )) as u8,
            decreases 20 - i,
        {
            let hi = b[2 + 2 * i];
            let lo = b[3 + 2 * i];
            let hv = match hex_digit_value(hi) {
                Some(v) => v,
                None => { return None },
            };
            let lv = match hex_digit_value(lo) {
                Some(v) => v,
                None => { return None },
            };
            out.push(hv * 16 + lv);
            i = i + 1;
        }
        let addr = Address { bytes: out };
        proof {
            assert(addr.bytes@ =~= address_bytes_of(b@));
        }
        Some(addr)
    }

    /// Whether two addresses hold the same twenty bytes.
    pub fn same_as(&self, other: &Address) -> (r: bool)
        requires
            self.wf(),
            other.wf(),
        ensures
            r == (self.bytes@ =~= other.bytes@),
    {
        let mut i: usize = 0;
        while i < 20
            invariant
                self.wf(),
                other.wf(),
                i <= 20,
                forall|j: int| 0 <= j < i ==> self.bytes@[j] == other.bytes@[j],
            decreases 20 - i,
        {
            if self.bytes[i] != other.bytes[i] {
                return false;
            }
            i = i + 1;
        }
        true
    }
}

} // verus!
