//! Votor timing budget constants and the slot-timeout schedule
//! (Definition 17, Algorithm 2 and Table 10 of the Alpenglow paper).

use crate::decimal::{decimal, digit_char, push_decimal};
use vstd::prelude::*;

verus! {

/// Lowercase delta: rough one-network-round yardstick (80 ms).
pub const NETWORK_ROUND_MS: u64 = 80;

/// Uppercase Delta: conservative synchrony bound used for timeouts (400 ms).
pub const SYNCHRONY_BOUND_MS: u64 = 400;

/// Δ_block: per-slot block production budget (400 ms).
pub const BLOCK_MS: u64 = 400;

/// Δ_timeout = 3Δ: skip-vote timeout slack (1200 ms).
pub const TIMEOUT_MS: u64 = 3 * SYNCHRONY_BOUND_MS;

/// Table 10: leader window size (4 slots).
pub const LEADER_WINDOW_SLOTS: u64 = 4;

/// The timing values both harnesses measure against.
#[derive(Debug, Clone, Copy)]
pub struct VotorBudget {
    /// Lowercase delta: rough one-network-round yardstick.
    pub network_round_ms: u64,
    /// Uppercase Delta: conservative synchrony bound used for timeouts.
    pub synchrony_bound_ms: u64,
    /// Δ_block: block production budget per slot.
    pub block_ms: u64,
    /// Δ_timeout = 3Δ.
    pub timeout_ms: u64,
    /// First-slot Votor timeout = Δ_timeout + Δ_block.
    pub first_slot_timeout_ms: u64,
    /// Number of slots in the leader window (Table 10 parameter w).
    pub leader_window_slots: u64,
}

/// Definition 17: the timeout of the slot `slot_offset` places after the
/// first slot of the window, measured from `ParentReady`:
/// `Δ_timeout + (slot_offset + 1) · Δ_block`.
pub open spec fn slot_timeout(b: VotorBudget, slot_offset: nat) -> int {
    b.timeout_ms + (slot_offset + 1) * b.block_ms
}

/// The budget's derived values agree with its base values, as the paper
/// defines them: `Δ_timeout = 3Δ` and the first slot's timeout is
/// `Δ_timeout + Δ_block`.
pub open spec fn derived_values_agree(b: VotorBudget) -> bool {
    &&& b.timeout_ms == 3 * b.synchrony_bound_ms
    &&& b.first_slot_timeout_ms == b.timeout_ms + b.block_ms
}

/// Every slot of the leader window has a timeout that fits in a `u64`.
pub open spec fn window_fits(b: VotorBudget) -> bool {
    b.timeout_ms + b.leader_window_slots * b.block_ms <= u64::MAX
}

/// One line of the banner's slot-timeout table.
pub open spec fn timeout_line(b: VotorBudget, slot_offset: nat) -> Seq<char> {
    "  Timeout(slot + "@ + decimal(slot_offset) + "):      "@ + decimal(
        slot_timeout(b, slot_offset) as nat,
    ) + " ms\n"@
}

/// The table lines for the first `n` slots of the window.
pub open spec fn timeout_lines(b: VotorBudget, n: nat) -> Seq<char>
    decreases n,
{
    if n == 0 {
        Seq::empty()
    } else {
        timeout_lines(b, (n - 1) as nat) + timeout_line(b, (n - 1) as nat)
    }
}

/// The banner's lines before the slot-timeout table.
pub open spec fn banner_header(b: VotorBudget) -> Seq<char> {
    "Votor timing budget\n"@
        + "  δ  network round yardstick: "@ + decimal(b.network_round_ms as nat) + " ms\n"@
        + "  Δ  synchrony bound:        "@ + decimal(b.synchrony_bound_ms as nat) + " ms\n"@
        + "  Δ_block:                  "@ + decimal(b.block_ms as nat) + " ms\n"@
        + "  Δ_timeout = 3Δ:           "@ + decimal(b.timeout_ms as nat) + " ms\n"@
        + "  Timeout(first slot):      "@ + decimal(b.first_slot_timeout_ms as nat) + " ms\n"@
        + "  leader window slots:      "@ + decimal(b.leader_window_slots as nat) + "\n"@
}

/// The human-readable budget table: the header, then one line per slot of
/// the leader window.
pub open spec fn banner_text(b: VotorBudget) -> Seq<char> {
    banner_header(b) + timeout_lines(b, b.leader_window_slots as nat)
}

/// The number of line breaks in `s`.
pub open spec fn newlines(s: Seq<char>) -> nat
    decreases s.len(),
{
    if s.len() == 0 {
        0
    } else {
        newlines(s.drop_last()) + if s.last() == '\n' {
            1nat
        } else {
            0nat
        }
    }
}

proof fn lemma_newlines_concat(a: Seq<char>, b: Seq<char>)
    ensures
        newlines(a + b) == newlines(a) + newlines(b),
    decreases b.len(),
{
    if b.len() == 0 {
        assert(a + b =~= a);
    } else {
        lemma_newlines_concat(a, b.drop_last());
        assert((a + b).drop_last() =~= a + b.drop_last());
        assert((a + b).last() == b.last());
    }
}

proof fn lemma_decimal_newlines(n: nat)
    ensures
        newlines(decimal(n)) == 0,
        decimal(n).len() > 0,
    decreases n,
{
    reveal_with_fuel(newlines, 2);
    if n >= 10 {
        lemma_decimal_newlines(n / 10);
        lemma_newlines_concat(decimal(n / 10), seq![digit_char(n % 10)]);
    }
}

/// `pre + decimal(n) + post` has the line breaks of `pre` and `post`.
proof fn lemma_field_newlines(pre: Seq<char>, n: nat, post: Seq<char>)
    ensures
        newlines(pre + decimal(n) + post) == newlines(pre) + newlines(post),
{
    lemma_decimal_newlines(n);
    lemma_newlines_concat(pre, decimal(n));
    lemma_newlines_concat(pre + decimal(n), post);
}

proof fn lemma_timeout_line_shape(b: VotorBudget, slot_offset: nat)
    ensures
        newlines(timeout_line(b, slot_offset)) == 1,
        timeout_line(b, slot_offset).last() == '\n',
{
    reveal_strlit("  Timeout(slot + ");
    reveal_strlit("):      ");
    reveal_strlit(" ms\n");
    reveal_with_fuel(newlines, 20);
    assert(newlines("  Timeout(slot + "@) == 0);
    assert(newlines("):      "@) == 0);
    assert(newlines(" ms\n"@) == 1);
    let first = "  Timeout(slot + "@ + decimal(slot_offset) + "):      "@;
    lemma_field_newlines("  Timeout(slot + "@, slot_offset, "):      "@);
    lemma_field_newlines(first, slot_timeout(b, slot_offset) as nat, " ms\n"@);
}

/// Seven whole lines hold seven line breaks and end with one.
proof fn lemma_seven_newlines(
    l0: Seq<char>,
    f1: Seq<char>,
    f2: Seq<char>,
    f3: Seq<char>,
    f4: Seq<char>,
    f5: Seq<char>,
    f6: Seq<char>,
)
    requires
        whole_line(l0),
        whole_line(f1),
        whole_line(f2),
        whole_line(f3),
        whole_line(f4),
        whole_line(f5),
        whole_line(f6),
    ensures
        newlines(l0 + f1 + f2 + f3 + f4 + f5 + f6) == 7,
        (l0 + f1 + f2 + f3 + f4 + f5 + f6).len() > 0,
        (l0 + f1 + f2 + f3 + f4 + f5 + f6).last() == '\n',
{
    lemma_append_line(l0, f1);
    lemma_append_line(l0 + f1, f2);
    lemma_append_line(l0 + f1 + f2, f3);
    lemma_append_line(l0 + f1 + f2 + f3, f4);
    lemma_append_line(l0 + f1 + f2 + f3 + f4, f5);
    lemma_append_line(l0 + f1 + f2 + f3 + f4 + f5, f6);
}

proof fn lemma_header_newlines(b: VotorBudget)
    ensures
        newlines(banner_header(b)) == 7,
        banner_header(b).len() > 0,
        banner_header(b).last() == '\n',
{
    lemma_header_literals();
    let ms = " ms\n"@;
    let l0 = "Votor timing budget\n"@;
    let f1 = "  δ  network round yardstick: "@ + decimal(b.network_round_ms as nat) + ms;
    let f2 = "  Δ  synchrony bound:        "@ + decimal(b.synchrony_bound_ms as nat) + ms;
    let f3 = "  Δ_block:                  "@ + decimal(b.block_ms as nat) + ms;
    let f4 = "  Δ_timeout = 3Δ:           "@ + decimal(b.timeout_ms as nat) + ms;
    let f5 = "  Timeout(first slot):      "@ + decimal(b.first_slot_timeout_ms as nat) + ms;
    let f6 = "  leader window slots:      "@ + decimal(b.leader_window_slots as nat) + "\n"@;
    lemma_value_line("  δ  network round yardstick: "@, b.network_round_ms as nat, ms);
    lemma_value_line("  Δ  synchrony bound:        "@, b.synchrony_bound_ms as nat, ms);
    lemma_value_line("  Δ_block:                  "@, b.block_ms as nat, ms);
    lemma_value_line("  Δ_timeout = 3Δ:           "@, b.timeout_ms as nat, ms);
    lemma_value_line("  Timeout(first slot):      "@, b.first_slot_timeout_ms as nat, ms);
    lemma_value_line("  leader window slots:      "@, b.leader_window_slots as nat, "\n"@);
    assert(l0.len() > 0);
    lemma_seven_newlines(l0, f1, f2, f3, f4, f5, f6);
    assert(banner_header(b) =~= l0 + f1 + f2 + f3 + f4 + f5 + f6);
}

proof fn lemma_timeout_lines_newlines(b: VotorBudget, n: nat)
    ensures
        newlines(timeout_lines(b, n)) == n,
        n > 0 ==> timeout_lines(b, n).len() > 0 && timeout_lines(b, n).last() == '\n',
    decreases n,
{
    if n > 0 {
        lemma_timeout_lines_newlines(b, (n - 1) as nat);
        lemma_timeout_line_shape(b, (n - 1) as nat);
        lemma_newlines_concat(timeout_lines(b, (n - 1) as nat), timeout_line(b, (n - 1) as nat));
    }
}

proof fn lemma_timeout_lines_prefix(b: VotorBudget, m: nat, n: nat)
    requires
        m <= n,
    ensures
        timeout_lines(b, m).len() <= timeout_lines(b, n).len(),
        timeout_lines(b, n).subrange(0, timeout_lines(b, m).len() as int) == timeout_lines(b, m),
    decreases n,
{
    if m == n {
        assert(timeout_lines(b, n).subrange(0, timeout_lines(b, n).len() as int) =~= timeout_lines(b, n));
    } else {
        lemma_timeout_lines_prefix(b, m, (n - 1) as nat);
        let prev = timeout_lines(b, (n - 1) as nat);
        assert(timeout_lines(b, n).subrange(0, timeout_lines(b, m).len() as int)
            =~= prev.subrange(0, timeout_lines(b, m).len() as int));
    }
}

/// The banner has seven header lines and one line per slot of the leader
/// window, and ends with a line break.
pub proof fn law_banner_line_count(b: VotorBudget)
    ensures
        newlines(banner_text(b)) == 7 + b.leader_window_slots,
        banner_text(b).len() > 0,
        banner_text(b).last() == '\n',
{
    lemma_header_newlines(b);
    lemma_timeout_lines_newlines(b, b.leader_window_slots as nat);
    lemma_newlines_concat(banner_header(b), timeout_lines(b, b.leader_window_slots as nat));
    if b.leader_window_slots == 0 {
        assert(banner_text(b) =~= banner_header(b));
    }
}

/// The timeout of slot `slot_offset` stands on the banner's line numbered
/// `7 + slot_offset` (counting from 0): after exactly that many line breaks,
/// the banner continues with that slot's line, which holds one line break,
/// at its end.
pub proof fn law_banner_slot_line(b: VotorBudget, slot_offset: nat)
    requires
        slot_offset < b.leader_window_slots,
    ensures
        ({
            let before = banner_header(b) + timeout_lines(b, slot_offset);
            &&& newlines(before) == 7 + slot_offset
            &&& banner_text(b).subrange(
                before.len() as int,
                (before.len() + timeout_line(b, slot_offset).len()) as int,
            ) == timeout_line(b, slot_offset)
            &&& newlines(timeout_line(b, slot_offset)) == 1
            &&& timeout_line(b, slot_offset).last() == '\n'
        }),
{
    let w = b.leader_window_slots as nat;
    let before = banner_header(b) + timeout_lines(b, slot_offset);
    lemma_header_newlines(b);
    lemma_timeout_lines_newlines(b, slot_offset);
    lemma_newlines_concat(banner_header(b), timeout_lines(b, slot_offset));
    lemma_timeout_line_shape(b, slot_offset);
    lemma_timeout_lines_prefix(b, slot_offset + 1, w);
    let upto = timeout_lines(b, slot_offset + 1);
    assert(upto == timeout_lines(b, slot_offset) + timeout_line(b, slot_offset));
    let all = timeout_lines(b, w);
    let line = timeout_line(b, slot_offset);
    let rest = all.subrange(upto.len() as int, all.len() as int);
    assert(all =~= upto + rest);
    assert(banner_text(b) =~= before + line + rest);
    assert((before + line + rest).subrange(before.len() as int, (before.len() + line.len()) as int)
        =~= line);
}

/// Line `k` of `s` (counting from 0) is `line`, which includes its line
/// break: `line` starts after exactly `k` line breaks, at the start of a
/// line.
pub open spec fn has_line(s: Seq<char>, k: nat, line: Seq<char>) -> bool {
    exists|p: int|
        0 <= p && p + line.len() <= s.len() && newlines(#[trigger] s.subrange(0, p)) == k && (p
            == 0 || s[p - 1] == '\n') && s.subrange(p, p + line.len()) == line
}

proof fn lemma_has_line(a: Seq<char>, l: Seq<char>, r: Seq<char>, k: nat)
    requires
        newlines(a) == k,
        a.len() == 0 || a.last() == '\n',
    ensures
        has_line(a + l + r, k, l),
{
    let s = a + l + r;
    let p = a.len() as int;
    assert(s.subrange(0, p) =~= a);
    assert(s.subrange(p, p + l.len()) =~= l);
    if p > 0 {
        assert(s[p - 1] == a[p - 1]);
    }
}

/// The header's title line, and its other labels, which hold no line break.
proof fn lemma_header_literals()
    ensures
        newlines("Votor timing budget\n"@) == 1,
        "Votor timing budget\n"@.last() == '\n',
        newlines("  δ  network round yardstick: "@) == 0,
        newlines("  Δ  synchrony bound:        "@) == 0,
        newlines("  Δ_block:                  "@) == 0,
        newlines("  Δ_timeout = 3Δ:           "@) == 0,
        newlines("  Timeout(first slot):      "@) == 0,
        newlines("  leader window slots:      "@) == 0,
        newlines(" ms\n"@) == 1,
        " ms\n"@.len() > 0,
        " ms\n"@.last() == '\n',
        newlines("\n"@) == 1,
        "\n"@.len() > 0,
        "\n"@.last() == '\n',
{
    reveal_strlit("Votor timing budget\n");
    reveal_strlit("  δ  network round yardstick: ");
    reveal_strlit("  Δ  synchrony bound:        ");
    reveal_strlit("  Δ_block:                  ");
    reveal_strlit("  Δ_timeout = 3Δ:           ");
    reveal_strlit("  Timeout(first slot):      ");
    reveal_strlit("  leader window slots:      ");
    reveal_strlit(" ms\n");
    reveal_strlit("\n");
    reveal_with_fuel(newlines, 32);
}

/// A labelled value line: one line break, at its end.
proof fn lemma_value_line(label: Seq<char>, n: nat, end: Seq<char>)
    requires
        newlines(label) == 0,
        newlines(end) == 1,
        end.len() > 0,
        end.last() == '\n',
    ensures
        newlines(label + decimal(n) + end) == 1,
        (label + decimal(n) + end).last() == '\n',
{
    lemma_field_newlines(label, n, end);
}

/// Appending a line keeps the text at a line start and adds one line break.
proof fn lemma_append_line(a: Seq<char>, f: Seq<char>)
    requires
        newlines(f) == 1,
        f.len() > 0,
        f.last() == '\n',
    ensures
        newlines(a + f) == newlines(a) + 1,
        (a + f).last() == '\n',
{
    lemma_newlines_concat(a, f);
}

/// Text ending in a line break that holds no other: one whole line.
pub open spec fn whole_line(l: Seq<char>) -> bool {
    newlines(l) == 1 && l.len() > 0 && l.last() == '\n'
}

/// The lines `ls`, one after another.
pub open spec fn join_lines(ls: Seq<Seq<char>>) -> Seq<char>
    decreases ls.len(),
{
    if ls.len() == 0 {
        Seq::empty()
    } else {
        ls[0] + join_lines(ls.drop_first())
    }
}

/// Putting text that ends a line before `r` moves `r`'s lines down by the
/// line breaks in that text.
proof fn lemma_shift_line(a: Seq<char>, r: Seq<char>, k: nat, l: Seq<char>)
    requires
        has_line(r, k, l),
        a.len() == 0 || a.last() == '\n',
    ensures
        has_line(a + r, newlines(a) + k, l),
{
    let p = choose|p: int|
        0 <= p && p + l.len() <= r.len() && newlines(#[trigger] r.subrange(0, p)) == k && (p == 0
            || r[p - 1] == '\n') && r.subrange(p, p + l.len()) == l;
    let s = a + r;
    let q = a.len() + p;
    assert(s.subrange(0, q) =~= a + r.subrange(0, p));
    lemma_newlines_concat(a, r.subrange(0, p));
    assert(s.subrange(q, q + l.len()) =~= r.subrange(p, p + l.len()));
    if q > 0 {
        if p > 0 {
            assert(s[q - 1] == r[p - 1]);
        } else {
            assert(s[q - 1] == a[a.len() - 1]);
        }
    }
    assert(newlines(s.subrange(0, q)) == newlines(a) + k);
}

/// In whole lines `ls` followed by `t`, line `i` is `ls[i]`.
proof fn lemma_joined_line(ls: Seq<Seq<char>>, t: Seq<char>, i: nat)
    requires
        forall|j: int| 0 <= j < ls.len() ==> whole_line(#[trigger] ls[j]),
        i < ls.len(),
    ensures
        has_line(join_lines(ls) + t, i, ls[i as int]),
    decreases i,
{
    let rest = join_lines(ls.drop_first()) + t;
    assert(join_lines(ls) + t =~= ls[0] + rest);
    assert(whole_line(ls[0]));
    if i == 0 {
        assert(ls[0] + rest =~= Seq::<char>::empty() + ls[0] + rest);
        lemma_has_line(Seq::<char>::empty(), ls[0], rest, 0);
    } else {
        let tail = ls.drop_first();
        assert forall|j: int| 0 <= j < tail.len() implies whole_line(#[trigger] tail[j]) by {
            assert(tail[j] == ls[j + 1]);
        }
        lemma_joined_line(tail, t, (i - 1) as nat);
        assert(tail[i - 1] == ls[i as int]);
        lemma_shift_line(ls[0], rest, (i - 1) as nat, ls[i as int]);
    }
}

/// Seven whole lines followed by `t`: line `i` is the `i`-th of them.
proof fn lemma_seven_lines(
    l0: Seq<char>,
    f1: Seq<char>,
    f2: Seq<char>,
    f3: Seq<char>,
    f4: Seq<char>,
    f5: Seq<char>,
    f6: Seq<char>,
    t: Seq<char>,
)
    requires
        whole_line(l0),
        whole_line(f1),
        whole_line(f2),
        whole_line(f3),
        whole_line(f4),
        whole_line(f5),
        whole_line(f6),
    ensures
        has_line(l0 + f1 + f2 + f3 + f4 + f5 + f6 + t, 0, l0),
        has_line(l0 + f1 + f2 + f3 + f4 + f5 + f6 + t, 1, f1),
        has_line(l0 + f1 + f2 + f3 + f4 + f5 + f6 + t, 2, f2),
        has_line(l0 + f1 + f2 + f3 + f4 + f5 + f6 + t, 3, f3),
        has_line(l0 + f1 + f2 + f3 + f4 + f5 + f6 + t, 4, f4),
        has_line(l0 + f1 + f2 + f3 + f4 + f5 + f6 + t, 5, f5),
        has_line(l0 + f1 + f2 + f3 + f4 + f5 + f6 + t, 6, f6),
{
    let ls = seq![l0, f1, f2, f3, f4, f5, f6];
    assert(join_lines(ls) =~= l0 + f1 + f2 + f3 + f4 + f5 + f6) by {
        reveal_with_fuel(join_lines, 8);
        assert(ls.drop_first() =~= seq![f1, f2, f3, f4, f5, f6]);
        assert(ls.drop_first().drop_first() =~= seq![f2, f3, f4, f5, f6]);
        assert(ls.drop_first().drop_first().drop_first() =~= seq![f3, f4, f5, f6]);
        assert(ls.drop_first().drop_first().drop_first().drop_first() =~= seq![f4, f5, f6]);
        assert(ls.drop_first().drop_first().drop_first().drop_first().drop_first() =~= seq![f5, f6]);
        assert(ls.drop_first().drop_first().drop_first().drop_first().drop_first().drop_first()
            =~= seq![f6]);
        assert(seq![f6].drop_first() =~= Seq::<Seq<char>>::empty());
        assert(f6 + Seq::<char>::empty() =~= f6);
    }
    assert(l0 + f1 + f2 + f3 + f4 + f5 + f6 + t =~= join_lines(ls) + t);
    assert forall|j: int| 0 <= j < ls.len() implies whole_line(#[trigger] ls[j]) by {}
    lemma_joined_line(ls, t, 0);
    lemma_joined_line(ls, t, 1);
    lemma_joined_line(ls, t, 2);
    lemma_joined_line(ls, t, 3);
    lemma_joined_line(ls, t, 4);
    lemma_joined_line(ls, t, 5);
    lemma_joined_line(ls, t, 6);
}

/// The banner's header lines show the budget's values, in order: the title,
/// then δ, Δ, Δ_block, Δ_timeout, the first slot's timeout and the leader
/// window size.
pub proof fn law_banner_header_lines(b: VotorBudget)
    ensures
        has_line(banner_text(b), 0, "Votor timing budget\n"@),
        has_line(
            banner_text(b),
            1,
            "  δ  network round yardstick: "@ + decimal(b.network_round_ms as nat) + " ms\n"@,
        ),
        has_line(
            banner_text(b),
            2,
            "  Δ  synchrony bound:        "@ + decimal(b.synchrony_bound_ms as nat) + " ms\n"@,
        ),
        has_line(
            banner_text(b),
            3,
            "  Δ_block:                  "@ + decimal(b.block_ms as nat) + " ms\n"@,
        ),
        has_line(
            banner_text(b),
            4,
            "  Δ_timeout = 3Δ:           "@ + decimal(b.timeout_ms as nat) + " ms\n"@,
        ),
        has_line(
            banner_text(b),
            5,
            "  Timeout(first slot):      "@ + decimal(b.first_slot_timeout_ms as nat) + " ms\n"@,
        ),
        has_line(
            banner_text(b),
            6,
            "  leader window slots:      "@ + decimal(b.leader_window_slots as nat) + "\n"@,
        ),
{
    lemma_header_literals();
    let ms = " ms\n"@;
    let l0 = "Votor timing budget\n"@;
    let f1 = "  δ  network round yardstick: "@ + decimal(b.network_round_ms as nat) + ms;
    let f2 = "  Δ  synchrony bound:        "@ + decimal(b.synchrony_bound_ms as nat) + ms;
    let f3 = "  Δ_block:                  "@ + decimal(b.block_ms as nat) + ms;
    let f4 = "  Δ_timeout = 3Δ:           "@ + decimal(b.timeout_ms as nat) + ms;
    let f5 = "  Timeout(first slot):      "@ + decimal(b.first_slot_timeout_ms as nat) + ms;
    let f6 = "  leader window slots:      "@ + decimal(b.leader_window_slots as nat) + "\n"@;
    let t = timeout_lines(b, b.leader_window_slots as nat);
    lemma_value_line("  δ  network round yardstick: "@, b.network_round_ms as nat, ms);
    lemma_value_line("  Δ  synchrony bound:        "@, b.synchrony_bound_ms as nat, ms);
    lemma_value_line("  Δ_block:                  "@, b.block_ms as nat, ms);
    lemma_value_line("  Δ_timeout = 3Δ:           "@, b.timeout_ms as nat, ms);
    lemma_value_line("  Timeout(first slot):      "@, b.first_slot_timeout_ms as nat, ms);
    lemma_value_line("  leader window slots:      "@, b.leader_window_slots as nat, "\n"@);
    assert(banner_text(b) =~= l0 + f1 + f2 + f3 + f4 + f5 + f6 + t);
    assert(l0.len() > 0);
    lemma_seven_lines(l0, f1, f2, f3, f4, f5, f6, t);
}

/// Line `7 + k` of the banner shows slot `k`'s timeout,
/// `Δ_timeout + (k + 1) · Δ_block`, for each slot `k` of the leader window.
pub proof fn law_banner_slot_timeout_line(b: VotorBudget, k: nat)
    requires
        k < b.leader_window_slots,
    ensures
        has_line(
            banner_text(b),
            7 + k,
            "  Timeout(slot + "@ + decimal(k) + "):      "@ + decimal(
                (b.timeout_ms + (k + 1) * b.block_ms) as nat,
            ) + " ms\n"@,
        ),
{
    let w = b.leader_window_slots as nat;
    let a = banner_header(b) + timeout_lines(b, k);
    lemma_header_newlines(b);
    lemma_timeout_lines_newlines(b, k);
    lemma_newlines_concat(banner_header(b), timeout_lines(b, k));
    if k == 0 {
        assert(a =~= banner_header(b));
    } else {
        assert(a.last() == timeout_lines(b, k).last());
    }
    lemma_timeout_lines_prefix(b, k + 1, w);
    let upto = timeout_lines(b, k + 1);
    let all = timeout_lines(b, w);
    let line = timeout_line(b, k);
    let rest = all.subrange(upto.len() as int, all.len() as int);
    assert(all =~= upto + rest);
    assert(banner_text(b) =~= a + line + rest);
    lemma_has_line(a, line, rest, 7 + k);
}

/// Every line of `s` holds at least one character: no line break starts
/// `s` or follows another line break.
pub open spec fn lines_nonempty(s: Seq<char>) -> bool {
    forall|i: int| 0 <= i < s.len() && #[trigger] s[i] == '\n' ==> i > 0 && s[i - 1] != '\n'
}

proof fn lemma_no_newline(s: Seq<char>)
    requires
        newlines(s) == 0,
    ensures
        forall|i: int| 0 <= i < s.len() ==> #[trigger] s[i] != '\n',
    decreases s.len(),
{
    if s.len() > 0 {
        lemma_no_newline(s.drop_last());
        assert forall|i: int| 0 <= i < s.len() implies #[trigger] s[i] != '\n' by {
            if i < s.len() - 1 {
                assert(s[i] == s.drop_last()[i]);
            }
        }
    }
}

proof fn lemma_lines_nonempty_concat(a: Seq<char>, b: Seq<char>)
    requires
        lines_nonempty(a),
        lines_nonempty(b),
    ensures
        lines_nonempty(a + b),
{
    assert forall|i: int| 0 <= i < (a + b).len() && #[trigger] (a + b)[i] == '\n' implies i > 0
        && (a + b)[i - 1] != '\n' by {
        if i >= a.len() {
            assert(b[i - a.len()] == '\n');
            assert(b[i - a.len() - 1] != '\n');
        } else {
            assert(a[i] == '\n');
        }
    }
}

/// A piece without line breaks has no empty line.
proof fn lemma_lines_nonempty_flat(s: Seq<char>)
    requires
        newlines(s) == 0,
    ensures
        lines_nonempty(s),
{
    lemma_no_newline(s);
}

/// A line of at least one character followed by its line break.
proof fn lemma_lines_nonempty_line(s: Seq<char>)
    requires
        newlines(s) == 1,
        s.len() > 1,
        s.last() == '\n',
    ensures
        lines_nonempty(s),
{
    let body = s.drop_last();
    lemma_no_newline(body);
    assert forall|i: int| 0 <= i < s.len() && #[trigger] s[i] == '\n' implies i > 0 && s[i - 1]
        != '\n' by {
        if i < s.len() - 1 {
            assert(s[i] == body[i]);
        } else {
            assert(s[i - 1] == body[i - 1]);
        }
    }
}

proof fn lemma_decimal_lines_nonempty(n: nat)
    ensures
        lines_nonempty(decimal(n)),
{
    lemma_decimal_newlines(n);
    lemma_lines_nonempty_flat(decimal(n));
}

proof fn lemma_timeout_line_nonempty(b: VotorBudget, slot_offset: nat)
    ensures
        lines_nonempty(timeout_line(b, slot_offset)),
{
    reveal_strlit("  Timeout(slot + ");
    reveal_strlit("):      ");
    reveal_strlit(" ms\n");
    reveal_with_fuel(newlines, 20);
    lemma_lines_nonempty_flat("  Timeout(slot + "@);
    lemma_lines_nonempty_flat("):      "@);
    lemma_lines_nonempty_line(" ms\n"@);
    lemma_decimal_lines_nonempty(slot_offset);
    lemma_decimal_lines_nonempty(slot_timeout(b, slot_offset) as nat);
    let a = "  Timeout(slot + "@ + decimal(slot_offset);
    lemma_lines_nonempty_concat("  Timeout(slot + "@, decimal(slot_offset));
    lemma_lines_nonempty_concat(a, "):      "@);
    lemma_lines_nonempty_concat(a + "):      "@, decimal(slot_timeout(b, slot_offset) as nat));
    lemma_lines_nonempty_concat(
        a + "):      "@ + decimal(slot_timeout(b, slot_offset) as nat),
        " ms\n"@,
    );
}

proof fn lemma_timeout_lines_nonempty(b: VotorBudget, n: nat)
    ensures
        lines_nonempty(timeout_lines(b, n)),
    decreases n,
{
    if n > 0 {
        lemma_timeout_lines_nonempty(b, (n - 1) as nat);
        lemma_timeout_line_nonempty(b, (n - 1) as nat);
        lemma_lines_nonempty_concat(timeout_lines(b, (n - 1) as nat), timeout_line(b, (n - 1) as nat));
    }
}

/// `pre + decimal(n) + " ms\n"` has no empty line.
proof fn lemma_field_line_nonempty(pre: Seq<char>, n: nat)
    requires
        newlines(pre) == 0,
    ensures
        lines_nonempty(pre + decimal(n) + " ms\n"@),
{
    reveal_strlit(" ms\n");
    reveal_with_fuel(newlines, 5);
    lemma_lines_nonempty_flat(pre);
    lemma_decimal_lines_nonempty(n);
    lemma_lines_nonempty_line(" ms\n"@);
    lemma_lines_nonempty_concat(pre, decimal(n));
    lemma_lines_nonempty_concat(pre + decimal(n), " ms\n"@);
}

/// Seven pieces without empty lines make text without empty lines.
proof fn lemma_seven_nonempty(
    l0: Seq<char>,
    f1: Seq<char>,
    f2: Seq<char>,
    f3: Seq<char>,
    f4: Seq<char>,
    f5: Seq<char>,
    f6: Seq<char>,
)
    requires
        lines_nonempty(l0),
        lines_nonempty(f1),
        lines_nonempty(f2),
        lines_nonempty(f3),
        lines_nonempty(f4),
        lines_nonempty(f5),
        lines_nonempty(f6),
    ensures
        lines_nonempty(l0 + f1 + f2 + f3 + f4 + f5 + f6),
{
    assert(lines_nonempty(l0 + f1 + f2 + f3 + f4 + f5)) by {
        assert(lines_nonempty(l0 + f1 + f2 + f3 + f4)) by {
            assert(lines_nonempty(l0 + f1 + f2 + f3)) by {
                assert(lines_nonempty(l0 + f1 + f2)) by {
                    assert(lines_nonempty(l0 + f1)) by {
                        lemma_lines_nonempty_concat(l0, f1);
                    }
                    lemma_lines_nonempty_concat(l0 + f1, f2);
                }
                lemma_lines_nonempty_concat(l0 + f1 + f2, f3);
            }
            lemma_lines_nonempty_concat(l0 + f1 + f2 + f3, f4);
        }
        lemma_lines_nonempty_concat(l0 + f1 + f2 + f3 + f4, f5);
    }
    lemma_lines_nonempty_concat(l0 + f1 + f2 + f3 + f4 + f5, f6);
}

proof fn lemma_header_nonempty(b: VotorBudget)
    ensures
        lines_nonempty(banner_header(b)),
{
    lemma_header_literals();
    let l0 = "Votor timing budget\n"@;
    let p1 = "  δ  network round yardstick: "@;
    let p2 = "  Δ  synchrony bound:        "@;
    let p3 = "  Δ_block:                  "@;
    let p4 = "  Δ_timeout = 3Δ:           "@;
    let p5 = "  Timeout(first slot):      "@;
    let p6 = "  leader window slots:      "@;
    let ms = " ms\n"@;
    let nl = "\n"@;
    let w = decimal(b.leader_window_slots as nat);
    let f1 = p1 + decimal(b.network_round_ms as nat) + ms;
    let f2 = p2 + decimal(b.synchrony_bound_ms as nat) + ms;
    let f3 = p3 + decimal(b.block_ms as nat) + ms;
    let f4 = p4 + decimal(b.timeout_ms as nat) + ms;
    let f5 = p5 + decimal(b.first_slot_timeout_ms as nat) + ms;
    let f6 = p6 + (w + nl);
    assert(lines_nonempty(l0)) by {
        assert(l0.len() > 1) by {
            reveal_strlit("Votor timing budget\n");
        }
        lemma_lines_nonempty_line(l0);
    }
    assert(lines_nonempty(f1)) by {
        lemma_field_line_nonempty(p1, b.network_round_ms as nat);
    }
    assert(lines_nonempty(f2)) by {
        lemma_field_line_nonempty(p2, b.synchrony_bound_ms as nat);
    }
    assert(lines_nonempty(f3)) by {
        lemma_field_line_nonempty(p3, b.block_ms as nat);
    }
    assert(lines_nonempty(f4)) by {
        lemma_field_line_nonempty(p4, b.timeout_ms as nat);
    }
    assert(lines_nonempty(f5)) by {
        lemma_field_line_nonempty(p5, b.first_slot_timeout_ms as nat);
    }
    assert(lines_nonempty(f6)) by {
        lemma_decimal_newlines(b.leader_window_slots as nat);
        lemma_newlines_concat(w, nl);
        assert((w + nl).last() == '\n');
        lemma_lines_nonempty_line(w + nl);
        lemma_lines_nonempty_flat(p6);
        lemma_lines_nonempty_concat(p6, w + nl);
    }
    lemma_seven_nonempty(l0, f1, f2, f3, f4, f5, f6);
    assert(banner_header(b) =~= l0 + f1 + f2 + f3 + f4 + f5 + f6);
}

/// No line of the banner is empty.
pub proof fn law_banner_lines_nonempty(b: VotorBudget)
    ensures
        lines_nonempty(banner_text(b)),
{
    lemma_header_nonempty(b);
    lemma_timeout_lines_nonempty(b, b.leader_window_slots as nat);
    lemma_lines_nonempty_concat(banner_header(b), timeout_lines(b, b.leader_window_slots as nat));
}

proof fn lemma_slot_within_window(b: VotorBudget, slot_offset: nat)
    requires
        window_fits(b),
        slot_offset < b.leader_window_slots,
    ensures
        slot_timeout(b, slot_offset) <= u64::MAX,
{
    assert((slot_offset + 1) * b.block_ms <= b.leader_window_slots * b.block_ms)
        by (nonlinear_arith)
        requires
            slot_offset + 1 <= b.leader_window_slots,
    ;
}

/// The budget the paper's constants give.
pub open spec fn default_budget() -> VotorBudget {
    VotorBudget {
        network_round_ms: NETWORK_ROUND_MS,
        synchrony_bound_ms: SYNCHRONY_BOUND_MS,
        block_ms: BLOCK_MS,
        timeout_ms: TIMEOUT_MS,
        first_slot_timeout_ms: (TIMEOUT_MS + BLOCK_MS) as u64,
        leader_window_slots: LEADER_WINDOW_SLOTS,
    }
}

impl Default for VotorBudget {
    fn default() -> (b: Self)
        ensures
            b == default_budget(),
            derived_values_agree(b),
            window_fits(b),
    {
        VotorBudget {
            network_round_ms: NETWORK_ROUND_MS,
            synchrony_bound_ms: SYNCHRONY_BOUND_MS,
            block_ms: BLOCK_MS,
            timeout_ms: TIMEOUT_MS,
            first_slot_timeout_ms: TIMEOUT_MS + BLOCK_MS,
            leader_window_slots: LEADER_WINDOW_SLOTS,
        }
    }
}

/// The first slot's timeout, as the schedule computes it, is the
/// budget's `first_slot_timeout_ms`: `Δ_timeout + Δ_block`.
pub proof fn law_first_slot_timeout(b: VotorBudget)
    requires
        derived_values_agree(b),
    ensures
        slot_timeout(b, 0) == b.first_slot_timeout_ms,
{
    assert((0nat + 1) * b.block_ms == b.block_ms) by (nonlinear_arith);
}

/// The first slot of the window times out `Δ_timeout + Δ_block` after
/// `ParentReady`, whatever the budget's other values.
pub proof fn law_slot_zero_timeout(b: VotorBudget)
    ensures
        slot_timeout(b, 0) == b.timeout_ms + b.block_ms,
{
    assert((0nat + 1) * b.block_ms == b.block_ms) by (nonlinear_arith);
}

/// Each slot's timeout is one block budget later than the previous slot's.
pub proof fn law_slot_timeouts_step_by_block(b: VotorBudget, slot_offset: nat)
    ensures
        slot_timeout(b, slot_offset + 1) == slot_timeout(b, slot_offset) + b.block_ms,
{
    assert((slot_offset + 2) * b.block_ms == (slot_offset + 1) * b.block_ms + b.block_ms)
        by (nonlinear_arith);
}

/// A later slot never times out earlier than a preceding one.
pub proof fn law_slot_timeouts_monotone(b: VotorBudget, i: nat, j: nat)
    requires
        i <= j,
    ensures
        slot_timeout(b, i) <= slot_timeout(b, j),
{
    assert((i + 1) * b.block_ms <= (j + 1) * b.block_ms) by (nonlinear_arith)
        requires
            i <= j,
    ;
}

impl VotorBudget {
    /// Definition 17 / Algorithm 2:
    /// Timeout(i) = clock() + Δ_timeout + (i - s + 1) · Δ_block
    pub fn slot_timeout_ms(&self, slot_offset: u64) -> (t: u64)
        requires
            slot_timeout(*self, slot_offset as nat) <= u64::MAX,
            slot_offset < u64::MAX,
        ensures
            t == slot_timeout(*self, slot_offset as nat),
    {
        self.timeout_ms + (slot_offset + 1) * self.block_ms
    }
    /// Returns a human-readable banner with the full budget table.
    pub fn banner(&self) -> (out: String)
        requires
            window_fits(*self),
        ensures
            out@ == banner_text(*self),
    {
        let mut out = String::new();
        out.append("Votor timing budget\n");
        out.append("  δ  network round yardstick: ");
        push_decimal(&mut out, self.network_round_ms);
        out.append(" ms\n");
        out.append("  Δ  synchrony bound:        ");
        push_decimal(&mut out, self.synchrony_bound_ms);
        out.append(" ms\n");
        out.append("  Δ_block:                  ");
        push_decimal(&mut out, self.block_ms);
        out.append(" ms\n");
        out.append("  Δ_timeout = 3Δ:           ");
        push_decimal(&mut out, self.timeout_ms);
        out.append(" ms\n");
        out.append("  Timeout(first slot):      ");
        push_decimal(&mut out, self.first_slot_timeout_ms);
        out.append(" ms\n");
        out.append("  leader window slots:      ");
        push_decimal(&mut out, self.leader_window_slots);
        out.append("\n");
        assert(out@ =~= banner_header(*self) + timeout_lines(*self, 0));
        let mut offset: u64 = 0;
        while offset < self.leader_window_slots
            invariant
                offset <= self.leader_window_slots,
                window_fits(*self),
                out@ == banner_header(*self) + timeout_lines(*self, offset as nat),
            decreases self.leader_window_slots - offset,
        {
            proof {
                lemma_slot_within_window(*self, offset as nat);
            }
            let ghost before = out@;
            out.append("  Timeout(slot + ");
            push_decimal(&mut out, offset);
            out.append("):      ");
            push_decimal(&mut out, self.slot_timeout_ms(offset));
            out.append(" ms\n");
            assert(out@ =~= before + timeout_line(*self, offset as nat));
            offset = offset + 1;
            assert(out@ =~= banner_header(*self) + timeout_lines(*self, offset as nat));
        }
        out
    }
}

} // verus!
