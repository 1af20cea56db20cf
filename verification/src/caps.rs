//! The Linux capabilities the update commands need, and which of them the
//! current environment lets this program grant and use.
//!
//! The kernel refuses to `execve` a file whose permitted capabilities are not
//! a subset of the caller's bounding set, so only the required capabilities
//! found in the bounding set are ever granted.
use vstd::prelude::*;
use crate::text::{join, joined, texts};

verus! {

/// The capabilities the update commands need, as (name, number) pairs: the
/// names in `setcap(8)` syntax and the numbers of `<linux/capability.h>`.
pub open spec fn required_caps_spec() -> Seq<(&'static str, i32)> {
    seq![
        ("cap_chown", 0i32),
        ("cap_dac_override", 1i32),
        ("cap_dac_read_search", 2i32),
        ("cap_fowner", 3i32),
        ("cap_fsetid", 4i32),
        ("cap_kill", 5i32),
        ("cap_setgid", 6i32),
        ("cap_setuid", 7i32),
        ("cap_setpcap", 8i32),
        ("cap_net_bind_service", 10i32),
        ("cap_net_admin", 12i32),
        ("cap_net_raw", 13i32),
        ("cap_sys_chroot", 18i32),
        ("cap_sys_ptrace", 19i32),
        ("cap_sys_admin", 21i32),
        ("cap_sys_resource", 24i32),
        ("cap_mknod", 27i32),
        ("cap_audit_write", 29i32),
        ("cap_setfcap", 31i32),
    ]
}

/// The names of a list of capabilities, in order.
pub open spec fn cap_name_texts(caps: Seq<(&'static str, i32)>) -> Seq<Seq<char>> {
    caps.map_values(|c: (&'static str, i32)| c.0@)
}

/// The capabilities the update commands need, in a fixed order; the single
/// source of truth for both the `setcap` argument and the ambient raise.
pub fn required_caps() -> (caps: Vec<(&'static str, i32)>)
    ensures
        caps@ == required_caps_spec(),
{
    let mut caps: Vec<(&'static str, i32)> = Vec::new();
    caps.push(("cap_chown", 0));
    caps.push(("cap_dac_override", 1));
    caps.push(("cap_dac_read_search", 2));
    caps.push(("cap_fowner", 3));
    caps.push(("cap_fsetid", 4));
    caps.push(("cap_kill", 5));
    caps.push(("cap_setgid", 6));
    caps.push(("cap_setuid", 7));
    caps.push(("cap_setpcap", 8));
    caps.push(("cap_net_bind_service", 10));
    caps.push(("cap_net_admin", 12));
    caps.push(("cap_net_raw", 13));
    caps.push(("cap_sys_chroot", 18));
    caps.push(("cap_sys_ptrace", 19));
    caps.push(("cap_sys_admin", 21));
    caps.push(("cap_sys_resource", 24));
    caps.push(("cap_mknod", 27));
    caps.push(("cap_audit_write", 29));
    caps.push(("cap_setfcap", 31));
    assert(caps@ =~= required_caps_spec());
    caps
}

/// The capability bounding set of the process, as read from the kernel:
/// `present[n]` tells whether capability number `n` is in the set. A number
/// at or past the end of `present` is not in the set.
pub struct BoundingSet {
    pub present: Vec<bool>,
}

impl BoundingSet {
    /// Whether capability number `cap` is in the bounding set.
    pub open spec fn has(&self, cap: i32) -> bool {
        0 <= cap < self.present@.len() && self.present@[cap as int]
    }

    /// Whether capability number `cap` is in the bounding set.
    pub fn contains(&self, cap: i32) -> (r: bool)
        ensures
            r == self.has(cap),
            r == (0 <= cap < self.present@.len() && self.present@[cap as int]),
    {
        if 0 <= cap && (cap as usize) < self.present.len() {
            self.present[cap as usize]
        } else {
            false
        }
    }
}

/// The capabilities of `caps`, in order, whose presence in `bset` is
/// `present`.
pub open spec fn select(caps: Seq<(&'static str, i32)>, bset: BoundingSet, present: bool) -> Seq<(&'static str, i32)>
    decreases caps.len(),
{
    if caps.len() == 0 {
        Seq::empty()
    } else {
        let rest = select(caps.drop_last(), bset, present);
        if bset.has(caps.last().1) == present {
            rest.push(caps.last())
        } else {
            rest
        }
    }
}

/// The required capabilities that are in the bounding set.
pub open spec fn available_spec(bset: BoundingSet) -> Seq<(&'static str, i32)> {
    select(required_caps_spec(), bset, true)
}

/// The required capabilities that are not in the bounding set.
pub open spec fn unavailable_spec(bset: BoundingSet) -> Seq<(&'static str, i32)> {
    select(required_caps_spec(), bset, false)
}

/// The `setcap` specification granting the available capabilities in the
/// effective, inheritable and permitted sets, or nothing when none is
/// available.
pub open spec fn setcap_spec_text(bset: BoundingSet) -> Option<Seq<char>> {
    let names = cap_name_texts(available_spec(bset));
    if names.len() == 0 {
        None
    } else {
        Some(joined(names, ","@) + "+eip"@)
    }
}

/// The capabilities of `caps`, in order, whose presence in `bset` is `present`.
fn select_caps(caps: &Vec<(&'static str, i32)>, bset: &BoundingSet, present: bool) -> (r: Vec<(&'static str, i32)>)
    ensures
        r@ == select(caps@, *bset, present),
{
    let mut r: Vec<(&'static str, i32)> = Vec::new();
    let n = caps.len();
    let mut i: usize = 0;
    while i < n
        invariant
            n == caps@.len(),
            i <= n,
            r@ == select(caps@.take(i as int), *bset, present),
        decreases n - i,
    {
        let c = caps[i];
        if bset.contains(c.1) == present {
            r.push(c);
        }
        proof {
            assert(caps@.take(i + 1).drop_last() =~= caps@.take(i as int));
        }
        i = i + 1;
    }
    assert(caps@.take(n as int) =~= caps@);
    r
}

/// The subset of the required capabilities that is in the bounding set, and
/// can therefore be granted and used safely.
pub fn available_caps(bset: &BoundingSet) -> (caps: Vec<(&'static str, i32)>)
    ensures
        caps@ == available_spec(*bset),
{
    select_caps(&required_caps(), bset, true)
}

/// The names of the required capabilities that are not in the bounding set
/// and will be skipped by `setup`.
pub fn unavailable_caps(bset: &BoundingSet) -> (names: Vec<&'static str>)
    ensures
        names@ == unavailable_spec(*bset).map_values(|c: (&'static str, i32)| c.0),
{
    let missing = select_caps(&required_caps(), bset, false);
    names_of(&missing)
}

/// The names of `caps`, in order.
fn names_of(caps: &Vec<(&'static str, i32)>) -> (names: Vec<&'static str>)
    ensures
        names@ == caps@.map_values(|c: (&'static str, i32)| c.0),
{
    let mut names: Vec<&'static str> = Vec::new();
    let n = caps.len();
    let mut i: usize = 0;
    while i < n
        invariant
            n == caps@.len(),
            i <= n,
            names@ == caps@.take(i as int).map_values(|c: (&'static str, i32)| c.0),
        decreases n - i,
    {
        names.push(caps[i].0);
        proof {
            assert(caps@.take(i + 1).map_values(|c: (&'static str, i32)| c.0) =~= caps@.take(
                i as int,
            ).map_values(|c: (&'static str, i32)| c.0).push(caps@[i as int].0));
        }
        i = i + 1;
    }
    assert(caps@.take(n as int) =~= caps@);
    names
}

/// The comma-separated list of all required capabilities in
/// `setcap`/`getcap` syntax, e.g. `cap_chown,cap_dac_override,...`.
pub fn cap_names() -> (s: String)
    ensures
        s@ == joined(cap_name_texts(required_caps_spec()), ","@),
{
    let names = names_of(&required_caps());
    proof {
        assert(texts(names@) =~= cap_name_texts(required_caps_spec()));
    }
    join(&names, ",")
}

/// All required capabilities separated by a comma and a space, as the help
/// text lists them.
pub fn help_cap_list() -> (s: String)
    ensures
        s@ == joined(cap_name_texts(required_caps_spec()), ", "@),
{
    let names = names_of(&required_caps());
    proof {
        assert(texts(names@) =~= cap_name_texts(required_caps_spec()));
    }
    join(&names, ", ")
}

/// The `setcap` capability specification granting every available required
/// capability in the effective, inheritable and permitted sets (`+eip`), or
/// `None` when no required capability is available at all.
pub fn setcap_spec(bset: &BoundingSet) -> (spec: Option<String>)
    ensures
        spec matches Some(s) ==> setcap_spec_text(*bset) == Some(s@),
        spec is None ==> setcap_spec_text(*bset) is None,
{
    let names = names_of(&available_caps(bset));
    proof {
        assert(texts(names@) =~= cap_name_texts(available_spec(*bset)));
    }
    if names.len() == 0 {
        None
    } else {
        let mut s = join(&names, ",");
        s.append("+eip");
        Some(s)
    }
}

/// How many of the `prctl` return codes in `codes` report success (zero).
pub open spec fn successes(codes: Seq<i32>) -> nat
    decreases codes.len(),
{
    if codes.len() == 0 {
        0
    } else {
        successes(codes.drop_last()) + if codes.last() == 0 { 1nat } else { 0nat }
    }
}

/// The number of capabilities raised into the ambient set, given the return
/// code of the raise attempted for each available capability in turn: the
/// raise is best-effort and only the attempts that returned zero count.
pub fn raised_count(codes: &Vec<i32>) -> (n: usize)
    ensures
        n == successes(codes@),
        n <= codes@.len(),
{
    let mut n: usize = 0;
    let len = codes.len();
    let mut i: usize = 0;
    while i < len
        invariant
            len == codes@.len(),
            i <= len,
            n == successes(codes@.take(i as int)),
            n <= i,
        decreases len - i,
    {
        assert(codes@.take(i + 1).drop_last() =~= codes@.take(i as int));
        if codes[i] == 0 {
            n = n + 1;
        }
        i = i + 1;
    }
    assert(codes@.take(len as int) =~= codes@);
    n
}

/// A capability is selected exactly when it is listed and its presence in
/// the bounding set is the one asked for; the two selections together are as
/// long as the list.
pub proof fn lemma_select(caps: Seq<(&'static str, i32)>, bset: BoundingSet, present: bool)
    ensures
        forall|c: (&'static str, i32)|
            #[trigger] select(caps, bset, present).contains(c) <==> (caps.contains(c) && bset.has(c.1)
                == present),
        select(caps, bset, true).len() + select(caps, bset, false).len() == caps.len(),
    decreases caps.len(),
{
    if caps.len() > 0 {
        let init = caps.drop_last();
        lemma_select(init, bset, present);
        lemma_select(init, bset, true);
        lemma_select(init, bset, false);
        assert(caps =~= init.push(caps.last()));
        assert forall|c: (&'static str, i32)|
            #[trigger] select(caps, bset, present).contains(c) <==> (caps.contains(c) && bset.has(c.1)
                == present) by {
            if caps.contains(c) {
                let k = choose|k: int| 0 <= k < caps.len() && caps[k] == c;
                if k < caps.len() - 1 {
                    assert(init[k] == c);
                }
            }
            if init.contains(c) {
                let k = choose|k: int| 0 <= k < init.len() && init[k] == c;
                assert(caps[k] == c);
            }
            let rest = select(init, bset, present);
            if rest.contains(c) {
                let k = choose|k: int| 0 <= k < rest.len() && rest[k] == c;
                assert(rest.push(caps.last())[k] == c);
            }
            let pushed = rest.push(caps.last());
            if pushed.contains(c) {
                let k = choose|k: int| 0 <= k < pushed.len() && pushed[k] == c;
                if k < rest.len() {
                    assert(rest[k] == c);
                }
            }
            assert(pushed[rest.len() as int] == caps.last());
        }
    }
}

/// Every required capability lands in exactly one of the two lists: the
/// available ones are exactly the required ones in the bounding set, the
/// unavailable ones exactly those outside it, and together they are as many
/// as the required ones. In particular `setup` never grants a capability
/// outside the bounding set, which would leave the binary unexecutable.
pub proof fn available_and_unavailable_partition(bset: BoundingSet)
    ensures
        forall|c: (&'static str, i32)|
            #[trigger] available_spec(bset).contains(c) <==> (required_caps_spec().contains(c)
                && bset.has(c.1)),
        forall|c: (&'static str, i32)|
            #[trigger] unavailable_spec(bset).contains(c) <==> (required_caps_spec().contains(c)
                && !bset.has(c.1)),
        available_spec(bset).len() + unavailable_spec(bset).len() == required_caps_spec().len(),
{
    lemma_select(required_caps_spec(), bset, true);
    lemma_select(required_caps_spec(), bset, false);
}

/// `setup` has nothing to grant exactly when no required capability is in
/// the bounding set; otherwise the specification ends in `+eip`.
pub proof fn setcap_spec_absent_iff_nothing_available(bset: BoundingSet)
    ensures
        setcap_spec_text(bset) is None <==> (forall|i: int|
            0 <= i < required_caps_spec().len() ==> !bset.has(#[trigger] required_caps_spec()[i].1)),
        setcap_spec_text(bset) matches Some(s) ==> s == joined(
            cap_name_texts(available_spec(bset)),
            ","@,
        ) + "+eip"@,
{
    let req = required_caps_spec();
    lemma_select(req, bset, true);
    if setcap_spec_text(bset) is None {
        assert forall|i: int| 0 <= i < req.len() implies !bset.has(#[trigger] req[i].1) by {
            if bset.has(req[i].1) {
                assert(req.contains(req[i]));
                assert(available_spec(bset).contains(req[i]));
            }
        }
    } else {
        let a = available_spec(bset);
        assert(a.contains(a[0]));
        let k = choose|k: int| 0 <= k < req.len() && req[k] == a[0];
        assert(bset.has(req[k].1));
    }
}

/// The required capabilities have distinct names and distinct numbers, all
/// within the 32 capabilities of the first capability word.
pub proof fn required_caps_distinct()
    ensures
        forall|i: int, j: int|
            0 <= i < j < required_caps_spec().len() ==> #[trigger] required_caps_spec()[i].1
                != #[trigger] required_caps_spec()[j].1,
        forall|i: int|
            0 <= i < required_caps_spec().len() ==> 0 <= #[trigger] required_caps_spec()[i].1 < 32,
{
}

/// Each required capability carries its `setcap(8)` name and its number in
/// `<linux/capability.h>`, in this order.
pub proof fn required_caps_table()
    ensures
        required_caps_spec().len() == 19,
        required_caps_spec()[0] == ("cap_chown", 0i32),
        required_caps_spec()[1] == ("cap_dac_override", 1i32),
        required_caps_spec()[2] == ("cap_dac_read_search", 2i32),
        required_caps_spec()[3] == ("cap_fowner", 3i32),
        required_caps_spec()[4] == ("cap_fsetid", 4i32),
        required_caps_spec()[5] == ("cap_kill", 5i32),
        required_caps_spec()[6] == ("cap_setgid", 6i32),
        required_caps_spec()[7] == ("cap_setuid", 7i32),
        required_caps_spec()[8] == ("cap_setpcap", 8i32),
        required_caps_spec()[9] == ("cap_net_bind_service", 10i32),
        required_caps_spec()[10] == ("cap_net_admin", 12i32),
        required_caps_spec()[11] == ("cap_net_raw", 13i32),
        required_caps_spec()[12] == ("cap_sys_chroot", 18i32),
        required_caps_spec()[13] == ("cap_sys_ptrace", 19i32),
        required_caps_spec()[14] == ("cap_sys_admin", 21i32),
        required_caps_spec()[15] == ("cap_sys_resource", 24i32),
        required_caps_spec()[16] == ("cap_mknod", 27i32),
        required_caps_spec()[17] == ("cap_audit_write", 29i32),
        required_caps_spec()[18] == ("cap_setfcap", 31i32),
{
}

/// A required capability is available exactly when the kernel reported its
/// own number as present in the bounding set, and skipped exactly when it did
/// not (or the number lies past what was read); presence of any other number
/// has no effect on it.
pub proof fn availability_follows_the_kernel_entry(bset: BoundingSet)
    ensures
        forall|c: (&'static str, i32)|
            #[trigger] available_spec(bset).contains(c) <==> (required_caps_spec().contains(c) && 0
                <= c.1 < bset.present@.len() && bset.present@[c.1 as int]),
        forall|c: (&'static str, i32)|
            #[trigger] unavailable_spec(bset).contains(c) <==> (required_caps_spec().contains(c)
                && !(0 <= c.1 < bset.present@.len() && bset.present@[c.1 as int])),
        forall|i: int|
            0 <= i < required_caps_spec().len() ==> (available_spec(bset).contains(
                #[trigger] required_caps_spec()[i],
            ) <==> (required_caps_spec()[i].1 < bset.present@.len()
                && bset.present@[required_caps_spec()[i].1 as int])),
{
    available_and_unavailable_partition(bset);
    required_caps_distinct();
    assert forall|i: int|
        0 <= i < required_caps_spec().len() implies (available_spec(bset).contains(
        #[trigger] required_caps_spec()[i],
    ) <==> (required_caps_spec()[i].1 < bset.present@.len()
        && bset.present@[required_caps_spec()[i].1 as int])) by {
        assert(required_caps_spec().contains(required_caps_spec()[i]));
    }
}

} // verus!
