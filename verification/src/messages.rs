//! Structured single-line JSON events the miner emits on standard output:
//! a `started` line, a `landed_mine_transaction` line, and a
//! `failed_transaction` line carrying an escaped error string. The lines are
//! built here as bytes with exact contracts; the driver only prints them.

use vstd::prelude::*;
use vstd::string::StringSliceAdditionalSpecFns;

verus! {

/// The bytes of an ASCII character sequence, one byte per character.
pub open spec fn ascii_seq(chars: Seq<char>) -> Seq<u8> {
    Seq::new(chars.len(), |i: int| chars[i] as u8)
}

/// The lower-case hex digit for a value below 16.
pub open spec fn hex_digit(n: u8) -> u8
    recommends
        n < 16,
{
    if n < 10 {
        (48 + n) as u8
    } else {
        (87 + n) as u8
    }
}

/// JSON string escaping of one byte: a quote or a backslash gets a
/// backslash, a control byte becomes a `\u00XX` escape with lower-case hex
/// digits, every other byte passes through unchanged.
pub open spec fn escape_byte(b: u8) -> Seq<u8> {
    if b == 34 {
        seq![92u8, 34u8]
    } else if b == 92 {
        seq![92u8, 92u8]
    } else if b < 32 {
        seq![92u8, 117u8, 48u8, 48u8, hex_digit(b / 16), hex_digit(b % 16)]
    } else {
        seq![b]
    }
}

/// JSON string escaping of a whole byte string.
pub open spec fn escape_bytes(s: Seq<u8>) -> Seq<u8>
    decreases s.len(),
{
    if s.len() == 0 {
        Seq::empty()
    } else {
        escape_byte(s[0]) + escape_bytes(s.skip(1))
    }
}

/// Escaping distributes over taking one more byte.
proof fn lemma_escape_bytes_snoc(s: Seq<u8>, i: int)
    requires
        0 <= i < s.len(),
    ensures
        escape_bytes(s.take(i + 1)) == escape_bytes(s.take(i)) + escape_byte(s[i]),
    decreases i,
{
    let a = s.take(i + 1);
    let b = s.take(i);
    if i == 0 {
        assert(a =~= seq![s[0]]);
        assert(a.skip(1) =~= Seq::<u8>::empty());
        assert(b =~= Seq::<u8>::empty());
        assert(escape_bytes(Seq::<u8>::empty()) =~= Seq::<u8>::empty());
        assert(escape_bytes(a) =~= escape_byte(a[0]) + escape_bytes(a.skip(1)));
        assert(escape_bytes(a) =~= escape_byte(s[0]));
        assert(escape_bytes(b) + escape_byte(s[0]) =~= escape_byte(s[0]));
    } else {
        lemma_escape_bytes_snoc(s.skip(1), i - 1);
        assert(a.skip(1) =~= s.skip(1).take(i));
        assert(b.skip(1) =~= s.skip(1).take(i - 1));
        assert(a[0] == s[0] && b[0] == s[0]);
        assert(s.skip(1)[i - 1] == s[i]);
        assert(escape_bytes(a) == escape_byte(s[0]) + escape_bytes(s.skip(1).take(i)));
        assert(escape_bytes(b) + escape_byte(s[i]) == escape_byte(s[0]) + (escape_bytes(
            s.skip(1).take(i - 1),
        ) + escape_byte(s[i])));
        assert(escape_byte(s[0]) + (escape_bytes(s.skip(1).take(i - 1)) + escape_byte(s[i]))
            =~= escape_byte(s[0]) + escape_bytes(s.skip(1).take(i)));
    }
}

/// Escapes a byte string for embedding in a JSON string literal.
pub fn json_escape(s: &[u8]) -> (out: Vec<u8>)
    ensures
        out@ == escape_bytes(s@),
{
    let mut out: Vec<u8> = Vec::new();
    let mut i: usize = 0;
    while i < s.len()
        invariant
            0 <= i <= s@.len(),
            out@ == escape_bytes(s@.take(i as int)),
        decreases s@.len() - i,
    {
        let b = s[i];
        proof {
            lemma_escape_bytes_snoc(s@, i as int);
        }
        if b == 34 {
            out.push(92);
            out.push(34);
        } else if b == 92 {
            out.push(92);
            out.push(92);
        } else if b < 32 {
            out.push(92);
            out.push(117);
            out.push(48);
            out.push(48);
            let hi = b / 16;
            let lo = b % 16;
            out.push(if hi < 10 { 48 + hi } else { 87 + hi });
            out.push(if lo < 10 { 48 + lo } else { 87 + lo });
        } else {
            out.push(b);
        }
        proof {
            assert(out@ =~= escape_bytes(s@.take(i as int)) + escape_byte(s@[i as int]));
        }
        i = i + 1;
    }
    proof {
        assert(s@.take(s@.len() as int) =~= s@);
    }
    out
}

/// The bytes of an ASCII string literal.
pub fn literal_bytes(s: &str) -> (out: Vec<u8>)
    requires
        vstd::string::is_ascii(s),
    ensures
        out@ == ascii_seq(s@),
{
    proof {
        vstd::utf8::is_ascii_chars_encode_utf8(s@);
        assert(s.spec_bytes() =~= ascii_seq(s@));
    }
    vstd::slice::slice_to_vec(s.as_bytes())
}

/// The event line announcing that mining began.
pub fn started_line() -> (out: Vec<u8>)
    ensures
        out@ == ascii_seq("{\"msg_type\":\"started\"}"@),
{
    proof {
        reveal_strlit("{\"msg_type\":\"started\"}");
    }
    literal_bytes("{\"msg_type\":\"started\"}")
}

/// The event line announcing that a mine transaction landed.
pub fn landed_mine_line() -> (out: Vec<u8>)
    ensures
        out@ == ascii_seq("{\"msg_type\":\"landed_mine_transaction\"}"@),
{
    proof {
        reveal_strlit("{\"msg_type\":\"landed_mine_transaction\"}");
    }
    literal_bytes("{\"msg_type\":\"landed_mine_transaction\"}")
}

/// The event line announcing a failed transaction, carrying the error text
/// (as bytes) escaped into the line's `error` field.
pub fn failed_transaction_line(error: &[u8]) -> (out: Vec<u8>)
    ensures
        out@ == ascii_seq("{\"msg_type\":\"failed_transaction\",\"error\":\""@) + escape_bytes(
            error@,
        ) + ascii_seq("\"}"@),
{
    proof {
        reveal_strlit("{\"msg_type\":\"failed_transaction\",\"error\":\"");
        reveal_strlit("\"}");
    }
    let mut out = literal_bytes("{\"msg_type\":\"failed_transaction\",\"error\":\"");
    let mut escaped = json_escape(error);
    out.append(&mut escaped);
    let mut close = literal_bytes("\"}");
    out.append(&mut close);
    out
}

} // verus!
