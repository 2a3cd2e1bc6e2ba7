use vstd::prelude::*;
use vstd::string::StringExecFns;
use crate::algorithm::PowAlgorithm;
use crate::proof_of_work::ProofOfWork;

verus! {

/// The character for the decimal digit `d`.
pub open spec fn spec_dec_digit(d: int) -> char
    recommends
        0 <= d < 10,
{
    if d == 0 {
        '0'
    } else if d == 1 {
        '1'
    } else if d == 2 {
        '2'
    } else if d == 3 {
        '3'
    } else if d == 4 {
        '4'
    } else if d == 5 {
        '5'
    } else if d == 6 {
        '6'
    } else if d == 7 {
        '7'
    } else if d == 8 {
        '8'
    } else {
        '9'
    }
}

/// The decimal rendering of `v`: most significant digit first, no sign, no
/// leading zeros, a single `'0'` for zero.
pub open spec fn spec_decimal(v: nat) -> Seq<char>
    decreases v,
{
    if v < 10 {
        seq![spec_dec_digit(v as int)]
    } else {
        spec_decimal(v / 10).push(spec_dec_digit((v % 10) as int))
    }
}

/// The character for the hexadecimal digit `d`, lowercase.
pub open spec fn spec_hex_digit(d: int) -> char
    recommends
        0 <= d < 16,
{
    if d == 10 {
        'a'
    } else if d == 11 {
        'b'
    } else if d == 12 {
        'c'
    } else if d == 13 {
        'd'
    } else if d == 14 {
        'e'
    } else if d == 15 {
        'f'
    } else {
        spec_dec_digit(d)
    }
}

/// The lowercase hexadecimal dump of a byte string: two digits per byte,
/// high nibble first.
pub open spec fn spec_hex(bytes: Seq<u8>) -> Seq<char>
    decreases bytes.len(),
{
    if bytes.len() == 0 {
        Seq::empty()
    } else {
        spec_hex(bytes.drop_last()) + seq![
            spec_hex_digit(bytes.last() as int / 16),
            spec_hex_digit(bytes.last() as int % 16),
        ]
    }
}

/// The multi-line human-readable summary of a proof-of-work record:
/// algorithm name and target difficulty, both accumulators, and the
/// auxiliary data, rendered as the decoded summary (or an explicit
/// malformed-data marker) for a Monero record and as a hexadecimal dump for
/// algorithms with no structured decoder.
pub open spec fn spec_summary(pow: ProofOfWork, decoded: Option<Seq<char>>) -> Seq<char> {
    "Mining algorithm: "@ + pow.pow_algo.spec_name() + ", Target difficulty: "@
        + spec_decimal(pow.target_difficulty.0 as nat)
        + "\nTotal accumulated difficulty:\nMonero="@ + spec_decimal(
        pow.accumulated_monero_difficulty.0 as nat,
    ) + ", Sha3="@ + spec_decimal(pow.accumulated_blake_difficulty.0 as nat) + "\nPow data: "@ + (
    match pow.pow_algo {
        PowAlgorithm::Monero => match decoded {
            Some(d) => d,
            None => "MALFORMED DATA"@,
        },
        PowAlgorithm::Blake => spec_hex(pow.pow_data@),
        PowAlgorithm::Sha3 => spec_hex(pow.pow_data@),
    }) + "\n"@
}

/// The one-character string for the decimal digit `d`.
fn dec_digit_str(d: u64) -> (s: &'static str)
    requires
        d < 10,
    ensures
        s@ == seq![spec_dec_digit(d as int)],
{
    let s = match d {
        0 => "0",
        1 => "1",
        2 => "2",
        3 => "3",
        4 => "4",
        5 => "5",
        6 => "6",
        7 => "7",
        8 => "8",
        _ => "9",
    };
    proof {
        reveal_strlit("0");
        reveal_strlit("1");
        reveal_strlit("2");
        reveal_strlit("3");
        reveal_strlit("4");
        reveal_strlit("5");
        reveal_strlit("6");
        reveal_strlit("7");
        reveal_strlit("8");
        reveal_strlit("9");
        assert(s@ =~= seq![spec_dec_digit(d as int)]);
    }
    s
}

/// The one-character string for the hexadecimal digit `d`, lowercase.
fn hex_digit_str(d: u8) -> (s: &'static str)
    requires
        d < 16,
    ensures
        s@ == seq![spec_hex_digit(d as int)],
{
    if d < 10 {
        dec_digit_str(d as u64)
    } else {
        let s = match d {
            10 => "a",
            11 => "b",
            12 => "c",
            13 => "d",
            14 => "e",
            _ => "f",
        };
        proof {
            reveal_strlit("a");
            reveal_strlit("b");
            reveal_strlit("c");
            reveal_strlit("d");
            reveal_strlit("e");
            reveal_strlit("f");
            assert(s@ =~= seq![spec_hex_digit(d as int)]);
        }
        s
    }
}

/// Appends the decimal rendering of `v` to `s`.
fn push_decimal(s: &mut String, v: u64)
    ensures
        final(s)@ == old(s)@ + spec_decimal(v as nat),
    decreases v,
{
    if v >= 10 {
        push_decimal(s, v / 10);
        s.append(dec_digit_str(v % 10));
        proof {
            assert(old(s)@ + spec_decimal((v / 10) as nat) + seq![
                spec_dec_digit((v % 10) as int),
            ] =~= old(s)@ + spec_decimal(v as nat));
        }
    } else {
        s.append(dec_digit_str(v));
    }
}

/// Appends the lowercase hexadecimal dump of `bytes` to `s`.
fn push_hex(s: &mut String, bytes: &[u8])
    ensures
        final(s)@ == old(s)@ + spec_hex(bytes@),
{
    let ghost s0 = s@;
    let mut i: usize = 0;
    while i < bytes.len()
        invariant
            i <= bytes@.len(),
            s@ == s0 + spec_hex(bytes@.subrange(0, i as int)),
        decreases bytes@.len() - i,
    {
        let b = bytes[i];
        s.append(hex_digit_str(b / 16));
        s.append(hex_digit_str(b % 16));
        proof {
            let pre = bytes@.subrange(0, (i + 1) as int);
            assert(pre.drop_last() =~= bytes@.subrange(0, i as int));
            assert(pre.last() == bytes@[i as int]);
            assert(s@ =~= s0 + spec_hex(pre));
        }
        i = i + 1;
    }
    proof {
        assert(bytes@.subrange(0, bytes@.len() as int) =~= bytes@);
    }
}

impl ProofOfWork {
    /// Renders the multi-line summary used by operator tooling, never by
    /// consensus.
    ///
    /// For a Monero-mined record the auxiliary data is a structured blob
    /// whose decoder is an external provider; the caller passes the decoded
    /// summary in `decoded_pow_data`, or `None` when decoding failed, which
    /// renders the explicit malformed-data marker. For the other algorithms
    /// the auxiliary bytes are dumped as lowercase hexadecimal and
    /// `decoded_pow_data` is ignored.
    pub fn to_display_string(&self, decoded_pow_data: Option<&str>) -> (s: String)
        ensures
            s@ == spec_summary(
                *self,
                match decoded_pow_data {
                    Some(d) => Some(d@),
                    None => None,
                },
            ),
    {
        let mut s = String::new();
        s.append("Mining algorithm: ");
        s.append(self.pow_algo.name());
        s.append(", Target difficulty: ");
        push_decimal(&mut s, self.target_difficulty.as_u64());
        s.append("\nTotal accumulated difficulty:\nMonero=");
        push_decimal(&mut s, self.accumulated_monero_difficulty.as_u64());
        s.append(", Sha3=");
        push_decimal(&mut s, self.accumulated_blake_difficulty.as_u64());
        s.append("\nPow data: ");
        match self.pow_algo {
            PowAlgorithm::Monero => {
                match decoded_pow_data {
                    Some(d) => s.append(d),
                    None => s.append("MALFORMED DATA"),
                }
            },
            PowAlgorithm::Blake => push_hex(&mut s, self.pow_data.as_slice()),
            PowAlgorithm::Sha3 => push_hex(&mut s, self.pow_data.as_slice()),
        }
        s.append("\n");
        proof {
            assert(s@ =~= spec_summary(
                *self,
                match decoded_pow_data {
                    Some(d) => Some(d@),
                    None => None,
                },
            ));
        }
        s
    }
}

} // verus!
