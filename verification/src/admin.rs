//! The maintenance commands: `clean <player>` drops one player's ledger
//! record, `wipe` drops everything after an explicit confirmation, and
//! both require the invoking player's name on the configured allow-list
//! (case-insensitive exact match, ASCII folding).

use vstd::prelude::*;

verus! {

/// One currently connected player, as the roster reports it.
pub struct PlayerRef {
    /// The player's display name, as bytes.
    pub name: Vec<u8>,
    /// The player's stable id.
    pub id: u128,
}

/// ASCII case folding of one byte.
pub open spec fn ascii_lower(c: u8) -> u8 {
    if 65 <= c <= 90 {
        (c + 32) as u8
    } else {
        c
    }
}

/// ASCII case folding of a byte string.
pub open spec fn lower_seq(s: Seq<u8>) -> Seq<u8> {
    Seq::new(s.len(), |i: int| ascii_lower(s[i]))
}

/// The two strings are equal up to ASCII case.
pub open spec fn eq_ignore_case(a: Seq<u8>, b: Seq<u8>) -> bool {
    lower_seq(a) == lower_seq(b)
}

/// `p` is a prefix of `s`, up to ASCII case.
pub open spec fn prefix_ignore_case(p: Seq<u8>, s: Seq<u8>) -> bool {
    p.len() <= s.len() && lower_seq(s.subrange(0, p.len() as int)) == lower_seq(p)
}

/// The concatenation of `args[from..]`, as the `clean` command's target.
pub open spec fn concat_from(args: Seq<Vec<u8>>, from: int) -> Seq<u8>
    decreases args.len() - from,
{
    if from < 0 || from >= args.len() {
        Seq::empty()
    } else {
        args[from]@ + concat_from(args, from + 1)
    }
}

/// The bytes of the subcommand `"clean"`.
pub open spec fn clean_word() -> Seq<u8> {
    seq![99u8, 108u8, 101u8, 97u8, 110u8]
}

/// The bytes of the subcommand `"wipe"`.
pub open spec fn wipe_word() -> Seq<u8> {
    seq![119u8, 105u8, 112u8, 101u8]
}

/// The bytes of the confirmation word `"yes"`.
pub open spec fn yes_word() -> Seq<u8> {
    seq![121u8, 101u8, 115u8]
}

/// `invoker` appears on the allow-list, compared case-insensitively.
pub open spec fn authorized(invoker: Seq<u8>, allowlist: Seq<Vec<u8>>) -> bool {
    exists|j: int| 0 <= j < allowlist.len() && eq_ignore_case(#[trigger] allowlist[j]@, invoker)
}

/// What a maintenance command resolves to; the caller performs it.
#[derive(Clone, Copy, Debug, PartialEq, Eq, Structural)]
pub enum AdminAction {
    /// The invoker is not on the allow-list: ignore the command.
    Denied,
    /// `clean` without a matching connected player: prompt for one.
    CleanNoTarget,
    /// Delete all three ledger keys of the roster entry at this index and
    /// confirm to the invoker.
    Clean { target: usize },
    /// Wipe the whole ledger.
    WipeConfirmed,
    /// `wipe` without its confirmation word: print the prompt instead.
    WipePrompt,
    /// Empty or unknown subcommand.
    Invalid,
}

/// Folds one byte to ASCII lower case.
fn lower_byte(c: u8) -> (r: u8)
    ensures
        r == ascii_lower(c),
{
    if 65 <= c && c <= 90 {
        c + 32
    } else {
        c
    }
}

/// Case-insensitive equality of two byte strings.
fn eq_ignore_case_bytes(a: &Vec<u8>, b: &Vec<u8>) -> (r: bool)
    ensures
        r == eq_ignore_case(a@, b@),
{
    if a.len() != b.len() {
        proof {
            assert(lower_seq(a@).len() != lower_seq(b@).len());
        }
        return false;
    }
    let mut i: usize = 0;
    while i < a.len()
        invariant
            a@.len() == b@.len(),
            i <= a@.len(),
            forall|k: int| 0 <= k < i ==> ascii_lower(a@[k]) == ascii_lower(b@[k]),
        decreases a@.len() - i,
    {
        if lower_byte(a[i]) != lower_byte(b[i]) {
            proof {
                assert(lower_seq(a@)[i as int] != lower_seq(b@)[i as int]);
            }
            return false;
        }
        i = i + 1;
    }
    proof {
        assert(lower_seq(a@) =~= lower_seq(b@));
    }
    true
}

/// Whether `invoker` is on the allow-list.
pub fn is_authorized(invoker: &Vec<u8>, allowlist: &Vec<Vec<u8>>) -> (r: bool)
    ensures
        r == authorized(invoker@, allowlist@),
{
    let mut j: usize = 0;
    while j < allowlist.len()
        invariant
            j <= allowlist@.len(),
            forall|k: int| 0 <= k < j ==> !eq_ignore_case(#[trigger] allowlist@[k]@, invoker@),
        decreases allowlist@.len() - j,
    {
        if eq_ignore_case_bytes(&allowlist[j], invoker) {
            return true;
        }
        j = j + 1;
    }
    false
}

/// Case-insensitive prefix test.
fn starts_with_ignore_case(s: &Vec<u8>, p: &Vec<u8>) -> (r: bool)
    ensures
        r == prefix_ignore_case(p@, s@),
{
    if p.len() > s.len() {
        return false;
    }
    let mut i: usize = 0;
    while i < p.len()
        invariant
            p@.len() <= s@.len(),
            i <= p@.len(),
            forall|k: int| 0 <= k < i ==> ascii_lower(s@[k]) == ascii_lower(p@[k]),
        decreases p@.len() - i,
    {
        if lower_byte(s[i]) != lower_byte(p[i]) {
            proof {
                let pre = s@.subrange(0, p@.len() as int);
                assert(lower_seq(pre)[i as int] == ascii_lower(s@[i as int]));
                assert(lower_seq(pre)[i as int] != lower_seq(p@)[i as int]);
            }
            return false;
        }
        i = i + 1;
    }
    proof {
        assert(lower_seq(s@.subrange(0, p@.len() as int)) =~= lower_seq(p@));
    }
    true
}

/// Concatenates `args[from..]` into one target string.
fn concat_args(args: &Vec<Vec<u8>>, from: usize) -> (r: Vec<u8>)
    ensures
        r@ == concat_from(args@, from as int),
{
    let mut r: Vec<u8> = Vec::new();
    let mut i: usize = from;
    let ghost whole = concat_from(args@, from as int);
    while i < args.len()
        invariant
            from <= i,
            i <= args@.len() || i == from,
            whole == concat_from(args@, from as int),
            r@ + concat_from(args@, i as int) =~= whole,
        decreases args@.len() - i,
    {
        let mut k: usize = 0;
        let ghost r0 = r@;
        while k < args[i].len()
            invariant
                i < args@.len(),
                k <= args@[i as int]@.len(),
                r@ == r0 + args@[i as int]@.subrange(0, k as int),
            decreases args@[i as int]@.len() - k,
        {
            r.push(args[i][k]);
            proof {
                assert(r@ =~= r0 + args@[i as int]@.subrange(0, k as int + 1));
            }
            k = k + 1;
        }
        proof {
            assert(args@[i as int]@.subrange(0, args@[i as int]@.len() as int) =~= args@[
                i as int
            ]@);
            assert(r@ =~= r0 + args@[i as int]@);
            assert(r@ + concat_from(args@, i as int + 1) =~= r0 + (args@[i as int]@ + concat_from(
                args@,
                i as int + 1,
            )));
            assert(r@ + concat_from(args@, i as int + 1) =~= whole);
        }
        i = i + 1;
    }
    proof {
        assert(concat_from(args@, i as int) =~= Seq::<u8>::empty());
        assert(r@ =~= whole);
    }
    r
}

/// Finds the first connected player whose name starts, case-insensitively,
/// with the target.
pub fn find_target(roster: &Vec<PlayerRef>, target: &Vec<u8>) -> (r: Option<usize>)
    ensures
        match r {
            Option::Some(j) => j < roster@.len() && prefix_ignore_case(
                target@,
                roster@[j as int].name@,
            ) && forall|k: int|
                0 <= k < j ==> !prefix_ignore_case(target@, #[trigger] roster@[k].name@),
            Option::None => forall|k: int|
                0 <= k < roster@.len() ==> !prefix_ignore_case(
                    target@,
                    #[trigger] roster@[k].name@,
                ),
        },
{
    let mut j: usize = 0;
    while j < roster.len()
        invariant
            j <= roster@.len(),
            forall|k: int| 0 <= k < j ==> !prefix_ignore_case(target@, #[trigger] roster@[k].name@),
        decreases roster@.len() - j,
    {
        if starts_with_ignore_case(&roster[j].name, target) {
            return Option::Some(j);
        }
        j = j + 1;
    }
    Option::None
}

/// Exact match against the subcommand `"clean"`.
fn is_clean_word(v: &Vec<u8>) -> (r: bool)
    ensures
        r == (v@ == clean_word()),
{
    if v.len() != 5 {
        return false;
    }
    if v[0] == 99 && v[1] == 108 && v[2] == 101 && v[3] == 97 && v[4] == 110 {
        proof {
            assert(v@ =~= clean_word());
        }
        true
    } else {
        proof {
            assert(clean_word()[0] == 99 && clean_word()[1] == 108 && clean_word()[2] == 101
                && clean_word()[3] == 97 && clean_word()[4] == 110);
        }
        false
    }
}

/// Exact match against the subcommand `"wipe"`.
fn is_wipe_word(v: &Vec<u8>) -> (r: bool)
    ensures
        r == (v@ == wipe_word()),
{
    if v.len() != 4 {
        return false;
    }
    if v[0] == 119 && v[1] == 105 && v[2] == 112 && v[3] == 101 {
        proof {
            assert(v@ =~= wipe_word());
        }
        true
    } else {
        proof {
            assert(wipe_word()[0] == 119 && wipe_word()[1] == 105 && wipe_word()[2] == 112
                && wipe_word()[3] == 101);
        }
        false
    }
}

/// Exact match against the confirmation word `"yes"`.
fn is_yes_word(v: &Vec<u8>) -> (r: bool)
    ensures
        r == (v@ == yes_word()),
{
    if v.len() != 3 {
        return false;
    }
    if v[0] == 121 && v[1] == 101 && v[2] == 115 {
        proof {
            assert(v@ =~= yes_word());
        }
        true
    } else {
        proof {
            assert(yes_word()[0] == 121 && yes_word()[1] == 101 && yes_word()[2] == 115);
        }
        false
    }
}

/// Resolves one maintenance command: denied unless the invoker is
/// allow-listed; `clean` picks the first connected player whose name has
/// the concatenated arguments as a case-insensitive prefix; `wipe` acts
/// only with its explicit confirmation word and prompts otherwise; any
/// other subcommand is invalid.
pub fn admin_decide(
    invoker: &Vec<u8>,
    args: &Vec<Vec<u8>>,
    roster: &Vec<PlayerRef>,
    allowlist: &Vec<Vec<u8>>,
) -> (a: AdminAction)
    ensures
        !authorized(invoker@, allowlist@) ==> a == AdminAction::Denied,
        authorized(invoker@, allowlist@) && args@.len() == 0 ==> a == AdminAction::Invalid,
        authorized(invoker@, allowlist@) && args@.len() > 0 && args@[0]@ == clean_word() ==> (match a {
            AdminAction::Clean { target } => target < roster@.len() && prefix_ignore_case(
                concat_from(args@, 1),
                roster@[target as int].name@,
            ) && forall|k: int|
                0 <= k < target ==> !prefix_ignore_case(
                    concat_from(args@, 1),
                    #[trigger] roster@[k].name@,
                ),
            AdminAction::CleanNoTarget => forall|k: int|
                0 <= k < roster@.len() ==> !prefix_ignore_case(
                    concat_from(args@, 1),
                    #[trigger] roster@[k].name@,
                ),
            _ => false,
        }),
        authorized(invoker@, allowlist@) && args@.len() > 0 && args@[0]@ == wipe_word() ==> a == (
        if args@.len() >= 2 && args@[1]@ == yes_word() {
            AdminAction::WipeConfirmed
        } else {
            AdminAction::WipePrompt
        }),
        authorized(invoker@, allowlist@) && args@.len() > 0 && args@[0]@ != clean_word()
            && args@[0]@ != wipe_word() ==> a == AdminAction::Invalid,
{
    if !is_authorized(invoker, allowlist) {
        return AdminAction::Denied;
    }
    if args.len() == 0 {
        return AdminAction::Invalid;
    }
    if is_clean_word(&args[0]) {
        let target = concat_args(args, 1);
        match find_target(roster, &target) {
            Option::Some(j) => AdminAction::Clean { target: j },
            Option::None => AdminAction::CleanNoTarget,
        }
    } else if is_wipe_word(&args[0]) {
        if args.len() >= 2 && is_yes_word(&args[1]) {
            AdminAction::WipeConfirmed
        } else {
            AdminAction::WipePrompt
        }
    } else {
        AdminAction::Invalid
    }
}

} // verus!
