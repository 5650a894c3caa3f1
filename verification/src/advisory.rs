//! The advisory wire format: a JSON document
//! `{ "busses": [ { "id": N, "priority_fee": N }, ... ] }`.
//! `parse_advisory` turns the raw response bytes into a `DynamicConfig`;
//! anything outside the grammar below returns `None`, which callers treat as
//! "no advisory". The grammar is given by the `spec` functions of this
//! module: JSON whitespace is allowed between tokens, an entry holds exactly
//! the two keys `id` and `priority_fee` in either order, and a number is a
//! plain digit run whose value fits in a `u64`.

use crate::messages::ascii_seq;
use crate::select::{DynamicConfig, SuggestedBus};
use vstd::prelude::*;

verus! {

/// JSON whitespace: space, tab, line feed, carriage return.
pub open spec fn is_ws_byte(b: u8) -> bool {
    b == 32 || b == 9 || b == 10 || b == 13
}

/// An ASCII decimal digit.
pub open spec fn is_digit(b: u8) -> bool {
    48 <= b <= 57
}

/// The first position at or after `i` that holds no whitespace.
pub open spec fn skip_ws_spec(s: Seq<u8>, i: int) -> int
    decreases s.len() - i,
{
    if 0 <= i < s.len() && is_ws_byte(s[i]) {
        skip_ws_spec(s, i + 1)
    } else {
        i
    }
}

/// Consumes the single byte `b` at `i`.
pub open spec fn expect_spec(s: Seq<u8>, i: int, b: u8) -> Option<int> {
    if 0 <= i < s.len() && s[i] == b {
        Some(i + 1)
    } else {
        None
    }
}

/// Consumes the exact byte string `lit` at `i`.
pub open spec fn match_lit_spec(s: Seq<u8>, i: int, lit: Seq<u8>) -> Option<int> {
    if 0 <= i && i + lit.len() <= s.len() && s.subrange(i, i + lit.len()) == lit {
        Some(i + lit.len())
    } else {
        None
    }
}

/// Consumes a digit run starting from accumulated value `acc`; fails when
/// the value would pass `u64::MAX`.
pub open spec fn digits_spec(s: Seq<u8>, i: int, acc: u64) -> Option<(u64, int)>
    decreases s.len() - i,
{
    if 0 <= i < s.len() && is_digit(s[i]) {
        let d = (s[i] - 48) as u64;
        if acc <= (u64::MAX - d) / 10 {
            digits_spec(s, i + 1, ((acc * 10) as u64 + d) as u64)
        } else {
            None
        }
    } else {
        Some((acc, i))
    }
}

/// Consumes a number: at least one digit, value at most `u64::MAX`.
pub open spec fn number_spec(s: Seq<u8>, i: int) -> Option<(u64, int)> {
    if 0 <= i < s.len() && is_digit(s[i]) {
        digits_spec(s, i, 0)
    } else {
        None
    }
}

/// Consumes a quoted key: `"` `name` `"`.
pub open spec fn quoted_spec(s: Seq<u8>, i: int, name: Seq<u8>) -> Option<int> {
    match expect_spec(s, i, 34) {
        Some(j) => match match_lit_spec(s, j, name) {
            Some(k) => expect_spec(s, k, 34),
            None => None,
        },
        None => None,
    }
}

/// Consumes `ws ':' ws number` — the tail of a field after its key.
pub open spec fn field_value_spec(s: Seq<u8>, i: int) -> Option<(u64, int)> {
    match expect_spec(s, skip_ws_spec(s, i), 58) {
        Some(j) => number_spec(s, skip_ws_spec(s, j)),
        None => None,
    }
}

/// Consumes one entry field: a quoted `id` or `priority_fee` key with its
/// number; the boolean tells which key it was.
pub open spec fn field_spec(s: Seq<u8>, i: int) -> Option<(bool, u64, int)> {
    match quoted_spec(s, i, ascii_seq("id"@)) {
        Some(j) => match field_value_spec(s, j) {
            Some((v, k)) => Some((true, v, k)),
            None => None,
        },
        None => match quoted_spec(s, i, ascii_seq("priority_fee"@)) {
            Some(j) => match field_value_spec(s, j) {
                Some((v, k)) => Some((false, v, k)),
                None => None,
            },
            None => None,
        },
    }
}

/// Consumes one advisory entry: `{ field , field }` holding `id` and
/// `priority_fee` exactly once each, in either order, the slot index small
/// enough for a `usize`.
pub open spec fn entry_spec(s: Seq<u8>, i: int) -> Option<(SuggestedBus, int)> {
    match expect_spec(s, i, 123) {
        Some(j0) => match field_spec(s, skip_ws_spec(s, j0)) {
            Some((first_is_id, v1, j1)) => match expect_spec(s, skip_ws_spec(s, j1), 44) {
                Some(j2) => match field_spec(s, skip_ws_spec(s, j2)) {
                    Some((second_is_id, v2, j3)) => match expect_spec(s, skip_ws_spec(s, j3), 125) {
                        Some(j4) => {
                            if first_is_id == second_is_id {
                                None
                            } else {
                                let id_val = if first_is_id {
                                    v1
                                } else {
                                    v2
                                };
                                let fee_val = if first_is_id {
                                    v2
                                } else {
                                    v1
                                };
                                if id_val <= usize::MAX as u64 {
                                    Some(
                                        (
                                            SuggestedBus {
                                                id: id_val as usize,
                                                priority_fee: fee_val,
                                            },
                                            j4,
                                        ),
                                    )
                                } else {
                                    None
                                }
                            }
                        },
                        None => None,
                    },
                    None => None,
                },
                None => None,
            },
            None => None,
        },
        None => None,
    }
}

/// Consumes the rest of an entry list after `acc`: `]`, or `, entry` again.
pub open spec fn entries_rest_spec(s: Seq<u8>, i: int, acc: Seq<SuggestedBus>) -> Option<
    (Seq<SuggestedBus>, int),
>
    decreases s.len() - i,
{
    let j = skip_ws_spec(s, i);
    match expect_spec(s, j, 93) {
        Some(k) => Some((acc, k)),
        None => match expect_spec(s, j, 44) {
            Some(j1) => match entry_spec(s, skip_ws_spec(s, j1)) {
                Some((e, k)) => if i < k <= s.len() {
                    entries_rest_spec(s, k, acc.push(e))
                } else {
                    None
                },
                None => None,
            },
            None => None,
        },
    }
}

/// Consumes an entry list: `[` ws `]`, or `[` entries `]`.
pub open spec fn array_spec(s: Seq<u8>, i: int) -> Option<(Seq<SuggestedBus>, int)> {
    match expect_spec(s, i, 91) {
        Some(j0) => {
            let j = skip_ws_spec(s, j0);
            match expect_spec(s, j, 93) {
                Some(k) => Some((Seq::empty(), k)),
                None => match entry_spec(s, j) {
                    Some((e, k)) => if j0 < k <= s.len() {
                        entries_rest_spec(s, k, Seq::empty().push(e))
                    } else {
                        None
                    },
                    None => None,
                },
            }
        },
        None => None,
    }
}

/// The whole advisory document: `{ "busses" : [ ... ] }` with nothing but
/// whitespace around it.
pub open spec fn advisory_spec(s: Seq<u8>) -> Option<Seq<SuggestedBus>> {
    match expect_spec(s, skip_ws_spec(s, 0), 123) {
        Some(j0) => match quoted_spec(s, skip_ws_spec(s, j0), ascii_seq("busses"@)) {
            Some(j1) => match expect_spec(s, skip_ws_spec(s, j1), 58) {
                Some(j2) => match array_spec(s, skip_ws_spec(s, j2)) {
                    Some((es, j3)) => match expect_spec(s, skip_ws_spec(s, j3), 125) {
                        Some(j4) => if skip_ws_spec(s, j4) == s.len() {
                            Some(es)
                        } else {
                            None
                        },
                        None => None,
                    },
                    None => None,
                },
                None => None,
            },
            None => None,
        },
        None => None,
    }
}

fn skip_ws(s: &[u8], i: usize) -> (r: usize)
    requires
        i <= s@.len(),
    ensures
        r == skip_ws_spec(s@, i as int),
        i <= r <= s@.len(),
    decreases s@.len() - i,
{
    if i < s.len() && (s[i] == 32 || s[i] == 9 || s[i] == 10 || s[i] == 13) {
        skip_ws(s, i + 1)
    } else {
        i
    }
}

fn expect(s: &[u8], i: usize, b: u8) -> (r: Option<usize>)
    ensures
        match r {
            Some(k) => expect_spec(s@, i as int, b) == Some(k as int) && k <= s@.len(),
            None => expect_spec(s@, i as int, b) is None,
        },
{
    if i < s.len() && s[i] == b {
        Some(i + 1)
    } else {
        None
    }
}

fn match_lit(s: &[u8], i: usize, lit: &[u8]) -> (r: Option<usize>)
    requires
        i <= s@.len(),
    ensures
        match r {
            Some(k) => match_lit_spec(s@, i as int, lit@) == Some(k as int) && k <= s@.len(),
            None => match_lit_spec(s@, i as int, lit@) is None,
        },
{
    if s.len() - i < lit.len() {
        return None;
    }
    let mut j: usize = 0;
    while j < lit.len()
        invariant
            0 <= j <= lit@.len(),
            i + lit@.len() <= s@.len(),
            s@.len() <= usize::MAX,
            forall|t: int| 0 <= t < j ==> s@[i + t] == lit@[t],
        decreases lit@.len() - j,
    {
        if s[i + j] != lit[j] {
            proof {
                assert(s@.subrange(i as int, i + lit@.len())[j as int] == s@[i + j]);
            }
            return None;
        }
        j = j + 1;
    }
    proof {
        assert(s@.subrange(i as int, i + lit@.len()) =~= lit@);
    }
    Some(i + lit.len())
}

fn digits(s: &[u8], i: usize, acc: u64) -> (r: Option<(u64, usize)>)
    requires
        i <= s@.len(),
    ensures
        match r {
            Some((v, k)) => digits_spec(s@, i as int, acc) == Some((v, k as int)) && k <= s@.len(),
            None => digits_spec(s@, i as int, acc) is None,
        },
    decreases s@.len() - i,
{
    if i < s.len() && 48 <= s[i] && s[i] <= 57 {
        let d = (s[i] - 48) as u64;
        if acc <= (u64::MAX - d) / 10 {
            digits(s, i + 1, acc * 10 + d)
        } else {
            None
        }
    } else {
        Some((acc, i))
    }
}

fn number(s: &[u8], i: usize) -> (r: Option<(u64, usize)>)
    requires
        i <= s@.len(),
    ensures
        match r {
            Some((v, k)) => number_spec(s@, i as int) == Some((v, k as int)) && k <= s@.len(),
            None => number_spec(s@, i as int) is None,
        },
{
    if i < s.len() && 48 <= s[i] && s[i] <= 57 {
        digits(s, i, 0)
    } else {
        None
    }
}

fn quoted(s: &[u8], i: usize, name: &[u8]) -> (r: Option<usize>)
    requires
        i <= s@.len(),
    ensures
        match r {
            Some(k) => quoted_spec(s@, i as int, name@) == Some(k as int) && k <= s@.len(),
            None => quoted_spec(s@, i as int, name@) is None,
        },
{
    let j = expect(s, i, 34)?;
    let k = match_lit(s, j, name)?;
    expect(s, k, 34)
}

fn field_value(s: &[u8], i: usize) -> (r: Option<(u64, usize)>)
    requires
        i <= s@.len(),
    ensures
        match r {
            Some((v, k)) => field_value_spec(s@, i as int) == Some((v, k as int)) && k
                <= s@.len(),
            None => field_value_spec(s@, i as int) is None,
        },
{
    let j = expect(s, skip_ws(s, i), 58)?;
    number(s, skip_ws(s, j))
}

fn field(s: &[u8], i: usize) -> (r: Option<(bool, u64, usize)>)
    requires
        i <= s@.len(),
    ensures
        match r {
            Some((is_id, v, k)) => field_spec(s@, i as int) == Some((is_id, v, k as int)) && k
                <= s@.len(),
            None => field_spec(s@, i as int) is None,
        },
{
    proof {
        reveal_strlit("id");
        reveal_strlit("priority_fee");
    }
    let id_key = crate::messages::literal_bytes("id");
    let fee_key = crate::messages::literal_bytes("priority_fee");
    if let Some(j) = quoted(s, i, id_key.as_slice()) {
        let (v, k) = field_value(s, j)?;
        Some((true, v, k))
    } else {
        let j = quoted(s, i, fee_key.as_slice())?;
        let (v, k) = field_value(s, j)?;
        Some((false, v, k))
    }
}

fn entry(s: &[u8], i: usize) -> (r: Option<(SuggestedBus, usize)>)
    requires
        i <= s@.len(),
    ensures
        match r {
            Some((e, k)) => entry_spec(s@, i as int) == Some((e, k as int)) && k <= s@.len(),
            None => entry_spec(s@, i as int) is None,
        },
{
    let j0 = expect(s, i, 123)?;
    let (first_is_id, v1, j1) = field(s, skip_ws(s, j0))?;
    let j2 = expect(s, skip_ws(s, j1), 44)?;
    let (second_is_id, v2, j3) = field(s, skip_ws(s, j2))?;
    let j4 = expect(s, skip_ws(s, j3), 125)?;
    if first_is_id == second_is_id {
        return None;
    }
    let id_val = if first_is_id { v1 } else { v2 };
    let fee_val = if first_is_id { v2 } else { v1 };
    if id_val <= usize::MAX as u64 {
        Some((SuggestedBus { id: id_val as usize, priority_fee: fee_val }, j4))
    } else {
        None
    }
}

fn entries_rest(s: &[u8], i: usize, acc: Vec<SuggestedBus>) -> (r: Option<(
    Vec<SuggestedBus>,
    usize,
)>)
    requires
        i <= s@.len(),
    ensures
        match r {
            Some((es, k)) => entries_rest_spec(s@, i as int, acc@) == Some((es@, k as int)) && k
                <= s@.len(),
            None => entries_rest_spec(s@, i as int, acc@) is None,
        },
    decreases s@.len() - i,
{
    let j = skip_ws(s, i);
    if let Some(k) = expect(s, j, 93) {
        return Some((acc, k));
    }
    let j1 = expect(s, j, 44)?;
    let (e, k) = entry(s, skip_ws(s, j1))?;
    if i < k {
        let mut acc = acc;
        acc.push(e);
        entries_rest(s, k, acc)
    } else {
        None
    }
}

fn array(s: &[u8], i: usize) -> (r: Option<(Vec<SuggestedBus>, usize)>)
    requires
        i <= s@.len(),
    ensures
        match r {
            Some((es, k)) => array_spec(s@, i as int) == Some((es@, k as int)) && k <= s@.len(),
            None => array_spec(s@, i as int) is None,
        },
{
    let j0 = expect(s, i, 91)?;
    let j = skip_ws(s, j0);
    if let Some(k) = expect(s, j, 93) {
        let empty: Vec<SuggestedBus> = Vec::new();
        return Some((empty, k));
    }
    let (e, k) = entry(s, j)?;
    if j0 < k {
        let mut acc: Vec<SuggestedBus> = Vec::new();
        acc.push(e);
        proof {
            assert(acc@ =~= Seq::<SuggestedBus>::empty().push(e));
        }
        entries_rest(s, k, acc)
    } else {
        None
    }
}

/// Parses the raw advisory response. Returns the advisory exactly when the
/// bytes form a document of the grammar above (`advisory_spec`), in which
/// case the returned entries are the document's entries in order; any other
/// input gives `None`, which callers treat as "no advisory".
pub fn parse_advisory(bytes: &[u8]) -> (r: Option<DynamicConfig>)
    ensures
        match r {
            Some(cfg) => advisory_spec(bytes@) == Some(cfg.busses@),
            None => advisory_spec(bytes@) is None,
        },
{
    proof {
        reveal_strlit("busses");
    }
    let busses_key = crate::messages::literal_bytes("busses");
    let s = bytes;
    let j0 = match expect(s, skip_ws(s, 0), 123) {
        Some(j) => j,
        None => {
            return None;
        },
    };
    let j1 = match quoted(s, skip_ws(s, j0), busses_key.as_slice()) {
        Some(j) => j,
        None => {
            return None;
        },
    };
    let j2 = match expect(s, skip_ws(s, j1), 58) {
        Some(j) => j,
        None => {
            return None;
        },
    };
    let (es, j3) = match array(s, skip_ws(s, j2)) {
        Some(p) => p,
        None => {
            return None;
        },
    };
    let j4 = match expect(s, skip_ws(s, j3), 125) {
        Some(j) => j,
        None => {
            return None;
        },
    };
    if skip_ws(s, j4) == s.len() {
        Some(DynamicConfig { busses: es })
    } else {
        None
    }
}

} // verus!
