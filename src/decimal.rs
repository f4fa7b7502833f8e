use vstd::prelude::*;
use crate::collision::Collider;

verus! {

/// Whether `b` is an ASCII decimal digit.
pub open spec fn is_digit(b: u8) -> bool {
    48 <= b <= 57
}

/// Whether `b` is ASCII whitespace: space, tab, line feed, vertical tab, form feed, carriage return.
pub open spec fn is_space(b: u8) -> bool {
    b == 32 || (9 <= b <= 13)
}

pub open spec fn all_digits(s: Seq<u8>) -> bool {
    forall|i: int| 0 <= i < s.len() ==> is_digit(#[trigger] s[i])
}

/// The number that a string of decimal digits denotes.
pub open spec fn digits_value(s: Seq<u8>) -> nat
    decreases s.len(),
{
    if s.len() == 0 {
        0
    } else {
        digits_value(s.drop_last()) * 10 + (s.last() - 48) as nat
    }
}

/// The shortest decimal writing of `n`.
pub open spec fn decimal(n: nat) -> Seq<u8>
    decreases n,
{
    if n < 10 {
        seq![(48 + n) as u8]
    } else {
        decimal(n / 10).push((48 + n % 10) as u8)
    }
}

/// The `u32` that `s` writes in decimal, if it is a non-empty string of digits whose value fits.
pub open spec fn parse_spec(s: Seq<u8>) -> Option<u32> {
    if s.len() > 0 && all_digits(s) && digits_value(s) <= u32::MAX {
        Some(digits_value(s) as u32)
    } else {
        None
    }
}

/// `s` without its leading whitespace.
pub open spec fn trim_front(s: Seq<u8>) -> Seq<u8>
    decreases s.len(),
{
    if s.len() > 0 && is_space(s[0]) {
        trim_front(s.drop_first())
    } else {
        s
    }
}

/// `s` without its trailing whitespace.
pub open spec fn trim_back(s: Seq<u8>) -> Seq<u8>
    decreases s.len(),
{
    if s.len() > 0 && is_space(s.last()) {
        trim_back(s.drop_last())
    } else {
        s
    }
}

/// The high score that stored text holds: the decimal number it writes,
/// whitespace around it ignored, or zero where it holds none.
pub open spec fn stored_value(s: Seq<u8>) -> u32 {
    match parse_spec(trim_back(trim_front(s))) {
        Some(v) => v,
        None => 0,
    }
}

/// The label of the player's sprite.
pub open spec fn player_label() -> Seq<u8> {
    seq![80u8, 108u8, 97u8, 121u8, 101u8, 114u8]
}

/// What every enemy label starts with.
pub open spec fn enemy_prefix() -> Seq<u8> {
    seq![101u8, 110u8, 101u8, 109u8, 121u8, 95u8]
}

/// The label of the enemy with spawn index `id`.
pub open spec fn enemy_label_spec(id: u32) -> Seq<u8> {
    enemy_prefix() + decimal(id as nat)
}

/// The party that a sprite label names.
pub open spec fn collider_of(s: Seq<u8>) -> Collider {
    if s == player_label() {
        Collider::Player
    } else if s.len() >= 6 && s.subrange(0, 6) == enemy_prefix() && parse_spec(s.subrange(6, s.len() as int)) is Some {
        Collider::Enemy(parse_spec(s.subrange(6, s.len() as int))->0)
    } else {
        Collider::Other
    }
}

/// The decimal writing of `n` is a non-empty string of digits that denotes `n`.
pub proof fn lemma_decimal(n: nat)
    ensures
        decimal(n).len() > 0,
        all_digits(decimal(n)),
        digits_value(decimal(n)) == n,
    decreases n,
{
    if n >= 10 {
        lemma_decimal(n / 10);
        let s = decimal(n);
        assert(s.drop_last() =~= decimal(n / 10));
        assert(s.last() == (48 + n % 10) as u8);
        assert(n == (n / 10) * 10 + n % 10);
        assert forall|i: int| 0 <= i < s.len() implies is_digit(#[trigger] s[i]) by {
            if i < s.len() - 1 {
                assert(s[i] == decimal(n / 10)[i]);
            }
        }
    } else {
        assert(decimal(n).drop_last() =~= Seq::<u8>::empty());
        assert(digits_value(Seq::<u8>::empty()) == 0);
    }
}

/// A prefix of a string of digits denotes no more than the whole.
pub proof fn lemma_prefix_value(s: Seq<u8>, k: int)
    requires
        0 <= k <= s.len(),
        all_digits(s),
    ensures
        digits_value(s.subrange(0, k)) <= digits_value(s),
    decreases s.len(),
{
    if k < s.len() {
        let dl = s.drop_last();
        assert(dl.subrange(0, k) =~= s.subrange(0, k));
        assert forall|i: int| 0 <= i < dl.len() implies is_digit(#[trigger] dl[i]) by {
            assert(dl[i] == s[i]);
        }
        lemma_prefix_value(dl, k);
        assert(is_digit(s[s.len() - 1]));
    } else {
        assert(s.subrange(0, k) =~= s);
    }
}

/// Writes `n` in decimal.
pub fn encode_decimal(n: u32) -> (r: Vec<u8>)
    ensures
        r@ == decimal(n as nat),
    decreases n,
{
    if n < 10 {
        vec![(48 + n) as u8]
    } else {
        let mut v = encode_decimal(n / 10);
        v.push((48 + n % 10) as u8);
        v
    }
}

/// Reads the decimal number that `b[lo..hi]` writes.
fn parse_range(b: &[u8], lo: usize, hi: usize) -> (r: Option<u32>)
    requires
        lo <= hi <= b@.len(),
    ensures
        r == parse_spec(b@.subrange(lo as int, hi as int)),
{
    let ghost s = b@.subrange(lo as int, hi as int);
    if lo == hi {
        return None;
    }
    let mut acc: u64 = 0;
    let mut i: usize = lo;
    while i < hi
        invariant
            lo <= i <= hi <= b@.len(),
            s == b@.subrange(lo as int, hi as int),
            all_digits(s.subrange(0, i - lo)),
            acc == digits_value(s.subrange(0, i - lo)),
            acc <= u32::MAX,
        decreases hi - i,
    {
        let c = b[i];
        if c < 48 || c > 57 {
            proof {
                assert(!is_digit(s[i - lo]));
            }
            return None;
        }
        proof {
            let t = s.subrange(0, i - lo + 1);
            assert(t.drop_last() =~= s.subrange(0, i - lo));
            assert forall|j: int| 0 <= j < t.len() implies is_digit(#[trigger] t[j]) by {
                if j < t.len() - 1 {
                    assert(t[j] == s.subrange(0, i - lo)[j]);
                }
            }
        }
        acc = acc * 10 + (c - 48) as u64;
        if acc > u32::MAX as u64 {
            proof {
                if all_digits(s) {
                    lemma_prefix_value(s, i - lo + 1);
                }
            }
            return None;
        }
        i += 1;
    }
    proof {
        assert(s.subrange(0, hi - lo) =~= s);
    }
    Some(acc as u32)
}

/// Reads a number written in decimal digits alone; `None` for anything else
/// (an empty string, another character, a value beyond `u32`).
pub fn parse_decimal(b: &[u8]) -> (r: Option<u32>)
    ensures
        r == parse_spec(b@),
{
    proof {
        assert(b@.subrange(0, b@.len() as int) =~= b@);
    }
    parse_range(b, 0, b.len())
}

/// Whether `b` starts with the bytes of `p`.
fn starts_with(b: &[u8], p: &Vec<u8>) -> (r: bool)
    ensures
        r == (p@.len() <= b@.len() && b@.subrange(0, p@.len() as int) == p@),
{
    if p.len() > b.len() {
        return false;
    }
    let mut i: usize = 0;
    while i < p.len()
        invariant
            p@.len() <= b@.len(),
            0 <= i <= p@.len(),
            forall|j: int| 0 <= j < i ==> b@[j] == p@[j],
        decreases p@.len() - i,
    {
        if b[i] != p[i] {
            proof {
                assert(b@.subrange(0, p@.len() as int)[i as int] != p@[i as int]);
            }
            return false;
        }
        i += 1;
    }
    proof {
        assert(b@.subrange(0, p@.len() as int) =~= p@);
    }
    true
}

/// The text in which the high score is stored: its decimal writing.
pub fn encode_high_score(high_score: u32) -> (r: Vec<u8>)
    ensures
        r@ == decimal(high_score as nat),
{
    encode_decimal(high_score)
}

/// Reads a stored high score: the decimal number the text holds, with
/// whitespace around it ignored; zero where the text holds no such number.
pub fn decode_high_score(b: &[u8]) -> (r: u32)
    ensures
        r == stored_value(b@),
{
    let mut lo: usize = 0;
    proof {
        assert(b@.subrange(0, b@.len() as int) =~= b@);
    }
    while lo < b.len() && (b[lo] == 32 || (9 <= b[lo] && b[lo] <= 13))
        invariant
            0 <= lo <= b@.len(),
            trim_front(b@) == trim_front(b@.subrange(lo as int, b@.len() as int)),
        decreases b@.len() - lo,
    {
        proof {
            assert(b@.subrange(lo as int, b@.len() as int).drop_first() =~= b@.subrange(
                lo as int + 1,
                b@.len() as int,
            ));
        }
        lo += 1;
    }
    let ghost t = b@.subrange(lo as int, b@.len() as int);
    proof {
        if t.len() > 0 {
            assert(t[0] == b@[lo as int]);
        }
        assert(trim_front(t) == t);
    }
    let mut hi: usize = b.len();
    while hi > lo && (b[hi - 1] == 32 || (9 <= b[hi - 1] && b[hi - 1] <= 13))
        invariant
            lo <= hi <= b@.len(),
            t == b@.subrange(lo as int, b@.len() as int),
            trim_front(b@) == t,
            trim_back(t) == trim_back(b@.subrange(lo as int, hi as int)),
        decreases hi - lo,
    {
        proof {
            assert(b@.subrange(lo as int, hi as int).drop_last() =~= b@.subrange(
                lo as int,
                hi as int - 1,
            ));
        }
        hi -= 1;
    }
    proof {
        let u = b@.subrange(lo as int, hi as int);
        if u.len() > 0 {
            assert(u.last() == b@[hi - 1]);
        }
        assert(trim_back(u) == u);
    }
    match parse_range(b, lo, hi) {
        Some(v) => v,
        None => 0,
    }
}

/// The label of the enemy with spawn index `id`: `enemy_` and the index in decimal.
pub fn enemy_label(id: u32) -> (r: Vec<u8>)
    ensures
        r@ == enemy_label_spec(id),
{
    let mut r: Vec<u8> = vec![101u8, 110, 101, 109, 121, 95];
    let mut digits = encode_decimal(id);
    r.append(&mut digits);
    proof {
        assert(r@ =~= enemy_label_spec(id));
    }
    r
}

/// The party that a sprite label names: the player, an enemy by its spawn
/// index, or something else.
pub fn parse_label(b: &[u8]) -> (r: Collider)
    ensures
        r == collider_of(b@),
{
    let player: Vec<u8> = vec![80u8, 108, 97, 121, 101, 114];
    if b.len() == 6 && starts_with(b, &player) {
        proof {
            assert(b@ =~= b@.subrange(0, 6));
            assert(player@ =~= player_label());
        }
        return Collider::Player;
    }
    proof {
        assert(player@ =~= player_label());
        if b@ == player_label() {
            assert(b@.subrange(0, 6) =~= b@);
        }
    }
    let prefix: Vec<u8> = vec![101u8, 110, 101, 109, 121, 95];
    proof {
        assert(prefix@ =~= enemy_prefix());
    }
    if starts_with(b, &prefix) {
        match parse_range(b, 6, b.len()) {
            Some(id) => Collider::Enemy(id),
            None => Collider::Other,
        }
    } else {
        Collider::Other
    }
}

/// Storing a high score and reading it back gives the same number.
pub proof fn lemma_high_score_round_trip(high_score: u32)
    ensures
        stored_value(decimal(high_score as nat)) == high_score,
{
    let s = decimal(high_score as nat);
    lemma_decimal(high_score as nat);
    assert(!is_space(s[0]));
    assert(trim_front(s) == s);
    assert(!is_space(s.last()));
    assert(trim_back(s) == s);
}

/// The label of an enemy names that enemy.
pub proof fn lemma_enemy_label_round_trip(id: u32)
    ensures
        collider_of(enemy_label_spec(id)) == Collider::Enemy(id),
{
    let s = enemy_label_spec(id);
    let d = decimal(id as nat);
    lemma_decimal(id as nat);
    assert(s.subrange(0, 6) =~= enemy_prefix());
    assert(s.subrange(6, s.len() as int) =~= d);
    assert(s != player_label()) by {
        assert(s[0] != player_label()[0]);
    }
}

} // verus!
