//! Hotkey-letter assignment for the menu bar: each label highlights the
//! first of its first three characters that no earlier label has claimed,
//! falling back to the third character when all three are taken. With a
//! small, distinct label set this yields one unique highlighted letter per
//! label; the lookahead is deliberately not generalized beyond three
//! characters.

use vstd::prelude::*;

verus! {

/// Which of the first three characters of `label` is highlighted, given the
/// characters already claimed by earlier labels: the first unclaimed one,
/// or the third as the fallback.
pub open spec fn hotkey_choice(label: Seq<char>, used: Set<char>) -> int {
    if !used.contains(label[0]) {
        0
    } else if !used.contains(label[1]) {
        1
    } else {
        2
    }
}

/// The characters claimed by the first `n` labels, scanned left to right:
/// each label adds the character it highlights.
pub open spec fn used_after(labels: Seq<Seq<char>>, n: int) -> Set<char>
    decreases n,
{
    if n <= 0 {
        Set::empty()
    } else {
        let prev = used_after(labels, n - 1);
        prev.insert(labels[n - 1][hotkey_choice(labels[n - 1], prev)])
    }
}

/// True when every label has at least the three characters the lookahead
/// scans.
pub open spec fn labels_long_enough(labels: Seq<Seq<char>>) -> bool {
    forall|k: int| 0 <= k < labels.len() ==> (#[trigger] labels[k]).len() >= 3
}

/// Whether `v` holds `c`.
fn contains_char(v: &Vec<char>, c: char) -> (res: bool)
    ensures
        res == v@.contains(c),
{
    let mut i: usize = 0;
    while i < v.len()
        invariant
            i <= v.len(),
            forall|k: int| 0 <= k < i ==> v@[k] != c,
        decreases v.len() - i,
    {
        if v[i] == c {
            return true;
        }
        i += 1;
    }
    false
}

/// Assign each label its highlighted character position: for each label in
/// turn, the first of its first three characters not yet claimed by an
/// earlier label, the third as fallback. Returns one position (0, 1 or 2)
/// per label.
pub fn assign_hotkeys(labels: &Vec<String>) -> (res: Vec<usize>)
    requires
        labels_long_enough(labels@.map_values(|s: String| s@)),
    ensures
        res@.len() == labels@.len(),
        forall|k: int|
            0 <= k < labels@.len() ==> #[trigger] res@[k] as int == hotkey_choice(
                labels@[k]@,
                used_after(labels@.map_values(|s: String| s@), k),
            ),
{
    let ghost views = labels@.map_values(|s: String| s@);
    let mut used: Vec<char> = Vec::new();
    let mut res: Vec<usize> = Vec::new();
    let mut i: usize = 0;
    proof {
        assert(used@.to_set() =~= used_after(views, 0));
    }
    while i < labels.len()
        invariant
            i <= labels.len(),
            views == labels@.map_values(|s: String| s@),
            labels_long_enough(views),
            res@.len() == i,
            used@.to_set() == used_after(views, i as int),
            forall|k: int|
                0 <= k < i ==> #[trigger] res@[k] as int == hotkey_choice(
                    views[k],
                    used_after(views, k),
                ),
        decreases labels.len() - i,
    {
        let label: &String = &labels[i];
        assert(label@ == views[i as int]);
        let c0 = label.as_str().get_char(0);
        let c1 = label.as_str().get_char(1);
        let c2 = label.as_str().get_char(2);
        let ghost prev = used_after(views, i as int);
        assert(forall|c: char| used@.contains(c) == prev.contains(c));
        let choice: usize;
        let picked: char;
        if !contains_char(&used, c0) {
            choice = 0;
            picked = c0;
        } else if !contains_char(&used, c1) {
            choice = 1;
            picked = c1;
        } else {
            choice = 2;
            picked = c2;
        }
        assert(choice as int == hotkey_choice(views[i as int], prev));
        assert(picked == views[i as int][choice as int]);
        let ghost old_used = used@;
        used.push(picked);
        res.push(choice);
        proof {
            assert forall|c: char| #[trigger] used@.contains(c) <==> prev.insert(picked).contains(
                c,
            ) by {
                if old_used.contains(c) {
                    let k = choose|k: int| 0 <= k < old_used.len() && old_used[k] == c;
                    assert(used@[k] == c);
                }
                if c == picked {
                    assert(used@[old_used.len() as int] == c);
                }
                if used@.contains(c) {
                    let k = choose|k: int| 0 <= k < used@.len() && used@[k] == c;
                    if k < old_used.len() {
                        assert(old_used[k] == c);
                    }
                }
            }
            assert(used@.to_set() =~= prev.insert(picked));
            assert(used@.to_set() == used_after(views, i + 1));
        }
        i += 1;
    }
    res
}

} // verus!
