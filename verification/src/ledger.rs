//! The ledger's key and value formats. Per owner the store holds three
//! independent keys, `ts:<id>`, `violations:<id>` and `bans:<id>`, with the
//! id in its hyphenated lowercase-hex form; a grace-timer value is the
//! decimal image of its epoch-second start. The decimal codec is verified;
//! the hyphenated id form comes from the uuid crate behind trusted
//! wrappers.

use vstd::arithmetic::div_mod::lemma_fundamental_div_mod;
use vstd::prelude::*;

verus! {

/// The decimal image of `n`, most significant digit first.
pub open spec fn dec_rep(n: nat) -> Seq<u8>
    decreases n,
{
    if n < 10 {
        seq![(48 + n) as u8]
    } else {
        dec_rep(n / 10).push((48 + n % 10) as u8)
    }
}

/// Every byte of `s` is an ASCII decimal digit.
pub open spec fn is_dec_digits(s: Seq<u8>) -> bool {
    forall|k: int| 0 <= k < s.len() ==> 48 <= #[trigger] s[k] <= 57
}

/// The value of `s` read as a decimal numeral.
pub open spec fn dec_val(s: Seq<u8>) -> int
    decreases s.len(),
{
    if s.len() == 0 {
        0
    } else {
        dec_val(s.drop_last()) * 10 + (s.last() - 48)
    }
}

/// Writes `n` in decimal, as stored for a grace-timer value.
pub fn u64_to_dec(n: u64) -> (r: Vec<u8>)
    ensures
        r@ == dec_rep(n as nat),
    decreases n,
{
    if n < 10 {
        let mut r: Vec<u8> = Vec::new();
        r.push((48 + n) as u8);
        proof {
            assert(r@ =~= dec_rep(n as nat));
        }
        r
    } else {
        proof {
            assert(n / 10 < n) by (nonlinear_arith)
                requires
                    n >= 10,
            ;
        }
        let mut r = u64_to_dec(n / 10);
        r.push((48 + (n % 10) as u8) as u8);
        proof {
            assert(r@ =~= dec_rep(n as nat));
        }
        r
    }
}

/// A digit string's value is non-negative.
proof fn lemma_dec_val_nonneg(s: Seq<u8>)
    requires
        is_dec_digits(s),
    ensures
        dec_val(s) >= 0,
    decreases s.len(),
{
    if s.len() > 0 {
        assert(is_dec_digits(s.drop_last()));
        lemma_dec_val_nonneg(s.drop_last());
    }
}

/// A digit string's value does not shrink when digits are appended.
proof fn lemma_dec_val_prefix(s: Seq<u8>, i: int)
    requires
        0 <= i <= s.len(),
        is_dec_digits(s),
    ensures
        dec_val(s) >= dec_val(s.subrange(0, i)),
    decreases s.len() - i,
{
    if i == s.len() {
        assert(s.subrange(0, i) =~= s);
    } else {
        lemma_dec_val_prefix(s, i + 1);
        assert(s.subrange(0, i + 1).drop_last() =~= s.subrange(0, i));
        assert(s.subrange(0, i + 1).last() == s[i]);
        assert(is_dec_digits(s.subrange(0, i)));
        lemma_dec_val_nonneg(s.subrange(0, i));
    }
}

/// Reads a stored decimal value: the number back iff the bytes are a
/// non-empty digit string whose value fits, and nothing otherwise — an
/// unparseable stored value makes the caller abort its pass.
pub fn dec_to_u64(s: &Vec<u8>) -> (r: Option<u64>)
    ensures
        match r {
            Option::Some(n) => s@.len() > 0 && is_dec_digits(s@) && n as int == dec_val(s@),
            Option::None => s@.len() == 0 || !is_dec_digits(s@) || dec_val(s@) > u64::MAX,
        },
{
    if s.len() == 0 {
        return Option::None;
    }
    let mut acc: u64 = 0;
    let mut i: usize = 0;
    while i < s.len()
        invariant
            0 < s@.len(),
            i <= s@.len(),
            is_dec_digits(s@.subrange(0, i as int)),
            acc as int == dec_val(s@.subrange(0, i as int)),
        decreases s@.len() - i,
    {
        let c = s[i];
        if c < 48 || c > 57 {
            return Option::None;
        }
        let d = (c - 48) as u64;
        if acc > (u64::MAX - d) / 10 {
            proof {
                assert(acc as int * 10 + d > u64::MAX) by (nonlinear_arith)
                    requires
                        acc as int > (u64::MAX - d as int) / 10,
                        0 <= d <= 9,
                ;
                assert(s@.subrange(0, i as int + 1).drop_last() =~= s@.subrange(0, i as int));
                assert(dec_val(s@.subrange(0, i as int + 1)) > u64::MAX);
                if is_dec_digits(s@) {
                    lemma_dec_val_prefix(s@, i as int + 1);
                }
            }
            return Option::None;
        }
        proof {
            assert(acc as int * 10 + d <= u64::MAX) by (nonlinear_arith)
                requires
                    acc as int <= (u64::MAX - d as int) / 10,
                    0 <= d <= 9,
            ;
            assert(s@.subrange(0, i as int + 1).drop_last() =~= s@.subrange(0, i as int));
        }
        acc = acc * 10 + d;
        i = i + 1;
    }
    proof {
        assert(s@.subrange(0, s@.len() as int) =~= s@);
    }
    Option::Some(acc)
}

/// Writing a value and reading it back yields the value: the decimal image
/// is a non-empty digit string that reads back as the number written.
pub proof fn lemma_dec_roundtrip(n: nat)
    ensures
        dec_rep(n).len() > 0,
        is_dec_digits(dec_rep(n)),
        dec_val(dec_rep(n)) == n,
    decreases n,
{
    if n < 10 {
        assert(dec_rep(n) == seq![(48 + n) as u8]);
        assert(dec_rep(n).len() == 1);
        assert(dec_rep(n).drop_last() =~= Seq::<u8>::empty());
        assert(dec_val(Seq::<u8>::empty()) == 0);
        assert(dec_rep(n).last() == (48 + n) as u8);
        assert((48 + n) as u8 == 48 + n);
        assert(dec_val(dec_rep(n)) == dec_val(dec_rep(n).drop_last()) * 10 + ((48 + n) as u8
            - 48));
    } else {
        lemma_dec_roundtrip(n / 10);
        assert(dec_rep(n).drop_last() =~= dec_rep(n / 10));
        assert(dec_rep(n).last() == (48 + n % 10) as u8);
        assert((48 + n % 10) as u8 == 48 + n % 10);
        assert(dec_val(dec_rep(n)) == dec_val(dec_rep(n / 10)) * 10 + (n % 10));
        lemma_fundamental_div_mod(n as int, 10);
        assert(n as int == 10 * ((n as int) / 10) + (n as int) % 10);
    }
}

/// The hyphenated lowercase-hex form of an owner id, as the uuid crate
/// writes it; it depends on the id alone.
pub uninterp spec fn uuid_str_of(id: u128) -> Seq<u8>;

/// What the uuid crate reads an id string as; it depends on the bytes
/// alone.
pub uninterp spec fn uuid_parse_of(s: Seq<u8>) -> Option<u128>;

/// Relies on uuid's `Uuid::from_u128` and its `Display` impl: the
/// hyphenated lowercase-hex form of the id, 36 bytes, a function of the id
/// alone.
#[verifier::external_body]
fn uuid_hyphenated(id: u128) -> (r: Vec<u8>)
    ensures
        r@ == uuid_str_of(id),
        r@.len() == 36,
{
    uuid::Uuid::from_u128(id).to_string().into_bytes()
}

/// Relies on uuid's `Uuid::try_parse_ascii` and `Uuid::as_u128`: reading
/// depends on the bytes alone, and reading back an id's own hyphenated
/// form yields that id.
#[verifier::external_body]
fn uuid_try_parse(s: &Vec<u8>) -> (r: Option<u128>)
    ensures
        r == uuid_parse_of(s@),
        forall|id: u128| s@ == uuid_str_of(id) ==> r == Option::Some(id),
{
    match uuid::Uuid::try_parse_ascii(s.as_slice()) {
        Ok(u) => Option::Some(u.as_u128()),
        Err(_) => Option::None,
    }
}

/// The bytes of `"ts:"`.
pub open spec fn ts_prefix() -> Seq<u8> {
    seq![116u8, 115u8, 58u8]
}

/// The bytes of `"violations:"`.
pub open spec fn violations_prefix() -> Seq<u8> {
    seq![118u8, 105u8, 111u8, 108u8, 97u8, 116u8, 105u8, 111u8, 110u8, 115u8, 58u8]
}

/// The bytes of `"bans:"`.
pub open spec fn bans_prefix() -> Seq<u8> {
    seq![98u8, 97u8, 110u8, 115u8, 58u8]
}

/// Appends `src` to `dst`.
fn append_bytes(dst: &mut Vec<u8>, src: &Vec<u8>)
    ensures
        final(dst)@ == old(dst)@ + src@,
{
    let mut i: usize = 0;
    while i < src.len()
        invariant
            i <= src@.len(),
            dst@ == old(dst)@ + src@.subrange(0, i as int),
        decreases src@.len() - i,
    {
        dst.push(src[i]);
        proof {
            assert(dst@ =~= old(dst)@ + src@.subrange(0, i as int + 1));
        }
        i = i + 1;
    }
    proof {
        assert(dst@ =~= old(dst)@ + src@);
    }
}

/// The grace-timer key of an owner.
pub fn ts_key(id: u128) -> (r: Vec<u8>)
    ensures
        r@ == ts_prefix() + uuid_str_of(id),
{
    let mut r: Vec<u8> = Vec::new();
    r.push(116);
    r.push(115);
    r.push(58);
    proof {
        assert(r@ =~= ts_prefix());
    }
    let u = uuid_hyphenated(id);
    append_bytes(&mut r, &u);
    r
}

/// The violation-counter key of an owner.
pub fn violations_key(id: u128) -> (r: Vec<u8>)
    ensures
        r@ == violations_prefix() + uuid_str_of(id),
{
    let mut r: Vec<u8> = Vec::new();
    r.push(118);
    r.push(105);
    r.push(111);
    r.push(108);
    r.push(97);
    r.push(116);
    r.push(105);
    r.push(111);
    r.push(110);
    r.push(115);
    r.push(58);
    proof {
        assert(r@ =~= violations_prefix());
    }
    let u = uuid_hyphenated(id);
    append_bytes(&mut r, &u);
    r
}

/// The ban-counter key of an owner.
pub fn bans_key(id: u128) -> (r: Vec<u8>)
    ensures
        r@ == bans_prefix() + uuid_str_of(id),
{
    let mut r: Vec<u8> = Vec::new();
    r.push(98);
    r.push(97);
    r.push(110);
    r.push(115);
    r.push(58);
    proof {
        assert(r@ =~= bans_prefix());
    }
    let u = uuid_hyphenated(id);
    append_bytes(&mut r, &u);
    r
}

/// What reconciliation makes of one stored key.
#[derive(Clone, Copy, Debug, PartialEq, Eq, Structural)]
pub enum TimerKeyClass {
    /// Not a grace-timer key: reconciliation passes it over.
    NotTimer,
    /// A grace-timer key whose owner part does not read as an id:
    /// reconciliation aborts the pass rather than guessing.
    Malformed,
    /// The grace-timer key of this owner.
    Owner(u128),
}

/// Classifies one stored key for reconciliation. A key this system wrote
/// with `ts_key(id)` always classifies as that owner's timer.
pub fn classify_timer_key(key: &Vec<u8>) -> (r: TimerKeyClass)
    ensures
        (key@.len() < 3 || key@.subrange(0, 3) != ts_prefix()) ==> r == TimerKeyClass::NotTimer,
        (key@.len() >= 3 && key@.subrange(0, 3) == ts_prefix()) ==> r == (match uuid_parse_of(
            key@.subrange(3, key@.len() as int),
        ) {
            Option::Some(id) => TimerKeyClass::Owner(id),
            Option::None => TimerKeyClass::Malformed,
        }),
        forall|id: u128| key@ == ts_prefix() + uuid_str_of(id) ==> r == TimerKeyClass::Owner(id),
{
    if key.len() < 3 || !(key[0] == 116 && key[1] == 115 && key[2] == 58) {
        proof {
            if key@.len() >= 3 {
                assert(key@.subrange(0, 3)[0] == key@[0]);
                assert(key@.subrange(0, 3)[1] == key@[1]);
                assert(key@.subrange(0, 3)[2] == key@[2]);
                assert(ts_prefix()[0] == 116 && ts_prefix()[1] == 115 && ts_prefix()[2] == 58);
                assert(key@.subrange(0, 3) != ts_prefix());
            }
            assert forall|id: u128| key@ != ts_prefix() + uuid_str_of(id) by {
                if key@ == ts_prefix() + uuid_str_of(id) {
                    assert(key@[0] == ts_prefix()[0]);
                    assert(key@[1] == ts_prefix()[1]);
                    assert(key@[2] == ts_prefix()[2]);
                }
            }
        }
        return TimerKeyClass::NotTimer;
    }
    proof {
        assert(key@.subrange(0, 3) =~= ts_prefix());
    }
    let mut rest: Vec<u8> = Vec::new();
    let mut i: usize = 3;
    while i < key.len()
        invariant
            3 <= i <= key@.len(),
            rest@ == key@.subrange(3, i as int),
        decreases key@.len() - i,
    {
        rest.push(key[i]);
        proof {
            assert(rest@ =~= key@.subrange(3, i as int + 1));
        }
        i = i + 1;
    }
    proof {
        assert(rest@ =~= key@.subrange(3, key@.len() as int));
    }
    let parsed = uuid_try_parse(&rest);
    proof {
        assert forall|id: u128| key@ == ts_prefix() + uuid_str_of(id) implies parsed
            == Option::Some(id) by {
            assert(rest@ =~= uuid_str_of(id));
        }
    }
    match parsed {
        Option::Some(id) => TimerKeyClass::Owner(id),
        Option::None => TimerKeyClass::Malformed,
    }
}

} // verus!
