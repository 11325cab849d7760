//! The rating book: one rating per player who has ever created or accepted a
//! challenge, in ascending order of identity. Identities are ordered as their
//! UTF-8 bytes are, the shorter of two first where one begins the other.

use vstd::prelude::*;
use vstd::utf8::{decode_utf8, encode_utf8, encode_utf8_decode_utf8};
use crate::rating::{elo, elo_spec, EloConfig, Outcomes, DEFAULT_RATING};

verus! {

pub struct RatingSummary {
    pub addr: String,
    pub rating: u64,
}

/// Whether `a` comes before `b`, given that they agree before position `k`:
/// the first byte in which they differ decides, and where there is none the
/// shorter comes first.
pub open spec fn lex_lt(a: Seq<u8>, b: Seq<u8>, k: int) -> bool
    decreases a.len() - k,
{
    if k < 0 || k >= b.len() {
        false
    } else if k >= a.len() {
        true
    } else if a[k] != b[k] {
        a[k] < b[k]
    } else {
        lex_lt(a, b, k + 1)
    }
}

/// Whether the identity `a` comes before the identity `b`.
pub open spec fn before(a: Seq<char>, b: Seq<char>) -> bool {
    lex_lt(encode_utf8(a), encode_utf8(b), 0)
}

/// Whether the book is in strictly ascending order of identity.
pub open spec fn sorted_book(s: Seq<RatingSummary>) -> bool {
    forall|x: int, y: int| 0 <= x < y < s.len() ==> before(s[x].addr@, s[y].addr@)
}

/// The first position at or after `k` whose identity does not come before
/// `player`: where an entry for `player` belongs.
pub open spec fn slot(s: Seq<RatingSummary>, player: Seq<char>, k: int) -> int
    decreases s.len() - k,
{
    if k < 0 || k >= s.len() {
        s.len() as int
    } else if !before(s[k].addr@, player) {
        k
    } else {
        slot(s, player, k + 1)
    }
}

/// The first position at or after `k` where `player` is rated, or the length
/// of `s` where there is none.
pub open spec fn rating_pos(s: Seq<RatingSummary>, player: Seq<char>, k: int) -> int
    decreases s.len() - k,
{
    if k < 0 || k >= s.len() {
        s.len() as int
    } else if s[k].addr@ == player {
        k
    } else {
        rating_pos(s, player, k + 1)
    }
}

/// Whether the book rates `player`.
pub open spec fn is_rated(s: Seq<RatingSummary>, player: Seq<char>) -> bool {
    rating_pos(s, player, 0) < s.len()
}

/// The rating of `player`, which is the default for one whom the book does not
/// rate.
pub open spec fn rating_of(s: Seq<RatingSummary>, player: Seq<char>) -> u64 {
    if is_rated(s, player) {
        s[rating_pos(s, player, 0)].rating
    } else {
        DEFAULT_RATING
    }
}

/// The book with `player` at `rating`: the entry is changed in place, or put
/// where it belongs in the order where there was none.
pub open spec fn with_rating(s: Seq<RatingSummary>, player: String, rating: u64) -> Seq<
    RatingSummary,
> {
    if is_rated(s, player@) {
        let at = rating_pos(s, player@, 0);
        s.update(at, (RatingSummary { addr: s[at].addr, rating }))
    } else {
        s.insert(slot(s, player@, 0), (RatingSummary { addr: player, rating }))
    }
}

/// The book in which `player` is rated: one not yet rated gets the default.
pub open spec fn with_default(s: Seq<RatingSummary>, player: String) -> Seq<RatingSummary> {
    if is_rated(s, player@) {
        s
    } else {
        s.insert(slot(s, player@, 0), (RatingSummary { addr: player, rating: DEFAULT_RATING }))
    }
}

/// The book after a game between `player1` and `player2` that ended in
/// `outcome` for the first.
pub open spec fn after_game(
    s: Seq<RatingSummary>,
    player1: String,
    player2: String,
    outcome: Outcomes,
    cfg: EloConfig,
) -> Seq<RatingSummary> {
    let rated = elo_spec(rating_of(s, player1@), rating_of(s, player2@), outcome, cfg);
    with_rating(with_rating(s, player1, rated.0 as u64), player2, rated.1 as u64)
}

/// Where the first entry for `player` at or after `k` stands, and that no
/// entry before it is theirs.
pub proof fn lemma_rating_pos(s: Seq<RatingSummary>, player: Seq<char>, k: int)
    requires
        0 <= k <= s.len(),
    ensures
        k <= rating_pos(s, player, k) <= s.len(),
        rating_pos(s, player, k) < s.len() ==> s[rating_pos(s, player, k)].addr@ == player,
        forall|x: int| k <= x < rating_pos(s, player, k) ==> s[x].addr@ != player,
    decreases s.len() - k,
{
    if k < s.len() && s[k].addr@ != player {
        lemma_rating_pos(s, player, k + 1);
    }
}

/// The order is transitive.
pub proof fn lemma_lex_trans(a: Seq<u8>, b: Seq<u8>, c: Seq<u8>, k: int)
    requires
        0 <= k,
        lex_lt(a, b, k),
        lex_lt(b, c, k),
    ensures
        lex_lt(a, c, k),
    decreases a.len() - k,
{
    if k < a.len() && a[k] == b[k] && b[k] == c[k] {
        lemma_lex_trans(a, b, c, k + 1);
    }
}

/// Of two byte strings that agree before `k`, one comes before the other or
/// they are equal.
pub proof fn lemma_lex_total(a: Seq<u8>, b: Seq<u8>, k: int)
    requires
        0 <= k <= a.len(),
        k <= b.len(),
        forall|x: int| 0 <= x < k ==> a[x] == b[x],
        !lex_lt(a, b, k),
        !lex_lt(b, a, k),
    ensures
        a =~= b,
    decreases a.len() - k,
{
    if k < a.len() && k < b.len() {
        lemma_lex_total(a, b, k + 1);
    }
}

/// Nothing comes before itself.
pub proof fn lemma_lex_irreflexive(a: Seq<u8>, k: int)
    requires
        0 <= k,
    ensures
        !lex_lt(a, a, k),
    decreases a.len() - k,
{
    if k < a.len() {
        lemma_lex_irreflexive(a, k + 1);
    }
}

/// Of two different identities one comes before the other.
pub proof fn lemma_before_total(a: Seq<char>, b: Seq<char>)
    requires
        a != b,
    ensures
        before(a, b) || before(b, a),
{
    encode_utf8_decode_utf8(a);
    encode_utf8_decode_utf8(b);
    if !before(a, b) && !before(b, a) {
        lemma_lex_total(encode_utf8(a), encode_utf8(b), 0);
        assert(decode_utf8(encode_utf8(a)) == decode_utf8(encode_utf8(b)));
    }
}

/// Where the entry for `player` belongs: every entry before the slot comes
/// before `player`, and the one at the slot does not.
pub proof fn lemma_slot(s: Seq<RatingSummary>, player: Seq<char>, k: int)
    requires
        0 <= k <= s.len(),
    ensures
        k <= slot(s, player, k) <= s.len(),
        slot(s, player, k) < s.len() ==> !before(s[slot(s, player, k)].addr@, player),
        forall|x: int| k <= x < slot(s, player, k) ==> before(s[x].addr@, player),
    decreases s.len() - k,
{
    if k < s.len() && before(s[k].addr@, player) {
        lemma_slot(s, player, k + 1);
    }
}

/// A sorted book lists no player twice.
pub proof fn lemma_sorted_book_is_distinct(s: Seq<RatingSummary>, x: int, y: int)
    requires
        sorted_book(s),
        0 <= x < y < s.len(),
    ensures
        s[x].addr@ != s[y].addr@,
{
    assert(before(s[x].addr@, s[y].addr@));
    lemma_lex_irreflexive(encode_utf8(s[x].addr@), 0);
}

/// A new entry at its slot keeps the book sorted.
pub proof fn lemma_insert_keeps_sorted(s: Seq<RatingSummary>, entry: RatingSummary)
    requires
        sorted_book(s),
        !is_rated(s, entry.addr@),
    ensures
        sorted_book(s.insert(slot(s, entry.addr@, 0), entry)),
{
    let player = entry.addr@;
    let at = slot(s, player, 0);
    lemma_slot(s, player, 0);
    lemma_rating_pos(s, player, 0);
    assert forall|y: int| at <= y < s.len() implies before(player, s[y].addr@) by {
        lemma_before_total(player, s[at].addr@);
        if y > at {
            assert(before(s[at].addr@, s[y].addr@));
            lemma_lex_trans(
                encode_utf8(player),
                encode_utf8(s[at].addr@),
                encode_utf8(s[y].addr@),
                0,
            );
        }
    }
    let t = s.insert(at, entry);
    assert forall|x: int, y: int| 0 <= x < y < t.len() implies before(t[x].addr@, t[y].addr@) by {
        let sx = if x < at { x } else { x - 1 };
        let sy = if y < at { y } else { y - 1 };
        if x != at {
            assert(t[x] == s[sx]);
        }
        if y != at {
            assert(t[y] == s[sy]);
        }
    }
}

/// Once a player got the default rating, the book rates them, at the rating
/// that they had or else at the default.
pub proof fn lemma_default_rates(s: Seq<RatingSummary>, player: String)
    ensures
        is_rated(with_default(s, player), player@),
        rating_of(with_default(s, player), player@) == rating_of(s, player@),
{
    let t = with_default(s, player);
    lemma_rating_pos(s, player@, 0);
    lemma_rating_pos(t, player@, 0);
    if !is_rated(s, player@) {
        let at = slot(s, player@, 0);
        lemma_slot(s, player@, 0);
        assert(t[at].addr@ == player@);
        assert forall|x: int| 0 <= x < at implies t[x].addr@ != player@ by {
            assert(t[x] == s[x]);
        }
    }
}

/// The first entry for `player` stands at `at` where that entry is theirs and
/// none before it is.
pub proof fn lemma_rating_pos_is(s: Seq<RatingSummary>, player: Seq<char>, at: int)
    requires
        0 <= at <= s.len(),
        at < s.len() ==> s[at].addr@ == player,
        forall|x: int| 0 <= x < at ==> (#[trigger] s[x]).addr@ != player,
    ensures
        rating_pos(s, player, 0) == at,
{
    lemma_rating_pos(s, player, 0);
    let found = rating_pos(s, player, 0);
    if found < at {
        assert(s[found].addr@ != player);
    }
}

/// Setting a rating rates the player at it, and changes nobody else's rating
/// nor takes anybody out of the book.
pub proof fn lemma_rating_set(s: Seq<RatingSummary>, player: String, rating: u64, other: Seq<char>)
    ensures
        is_rated(with_rating(s, player, rating), player@),
        rating_of(with_rating(s, player, rating), player@) == rating,
        other != player@ ==> rating_of(with_rating(s, player, rating), other) == rating_of(
            s,
            other,
        ),
        is_rated(s, other) ==> is_rated(with_rating(s, player, rating), other),
{
    let t = with_rating(s, player, rating);
    lemma_rating_pos(s, player@, 0);
    lemma_rating_pos(s, other, 0);
    let mine = rating_pos(s, player@, 0);
    let theirs = rating_pos(s, other, 0);
    if is_rated(s, player@) {
        lemma_rating_pos_is(t, player@, mine);
        if other != player@ {
            lemma_rating_pos_is(t, other, theirs);
        }
    } else {
        let at = slot(s, player@, 0);
        lemma_slot(s, player@, 0);
        assert forall|x: int| 0 <= x < at implies (#[trigger] t[x]).addr@ != player@ by {
            assert(t[x] == s[x]);
        }
        lemma_rating_pos_is(t, player@, at);
        if other != player@ {
            let moved = if theirs < at { theirs } else { theirs + 1 };
            assert forall|x: int| 0 <= x < moved implies (#[trigger] t[x]).addr@ != other by {
                if x < at {
                    assert(t[x] == s[x]);
                } else if x > at {
                    assert(t[x] == s[x - 1]);
                }
            }
            if theirs < s.len() {
                assert(t[moved] == s[theirs]);
            }
            lemma_rating_pos_is(t, other, moved);
        }
    }
}

/// Giving a player the default rating changes nobody's rating and takes
/// nobody out of the book.
pub proof fn lemma_default_keeps(s: Seq<RatingSummary>, player: String, other: Seq<char>)
    ensures
        rating_of(with_default(s, player), other) == rating_of(s, other),
        is_rated(s, other) ==> is_rated(with_default(s, player), other),
{
    if !is_rated(s, player@) {
        assert(with_default(s, player) == with_rating(s, player, DEFAULT_RATING));
        lemma_rating_set(s, player, DEFAULT_RATING, other);
    }
}

/// Rating a game between two different players sets their two ratings to what
/// the rating engine gives, and changes nobody else's.
pub proof fn lemma_game_rates_two(
    s: Seq<RatingSummary>,
    player1: String,
    player2: String,
    outcome: Outcomes,
    cfg: EloConfig,
    other: Seq<char>,
)
    requires
        player1@ != player2@,
    ensures
        rating_of(after_game(s, player1, player2, outcome, cfg), player1@) == elo_spec(
            rating_of(s, player1@),
            rating_of(s, player2@),
            outcome,
            cfg,
        ).0 as u64,
        rating_of(after_game(s, player1, player2, outcome, cfg), player2@) == elo_spec(
            rating_of(s, player1@),
            rating_of(s, player2@),
            outcome,
            cfg,
        ).1 as u64,
        other != player1@ && other != player2@ ==> rating_of(
            after_game(s, player1, player2, outcome, cfg),
            other,
        ) == rating_of(s, other),
        is_rated(s, other) ==> is_rated(after_game(s, player1, player2, outcome, cfg), other),
{
    let rated = elo_spec(rating_of(s, player1@), rating_of(s, player2@), outcome, cfg);
    let first = with_rating(s, player1, rated.0 as u64);
    lemma_rating_set(s, player1, rated.0 as u64, other);
    lemma_rating_set(s, player1, rated.0 as u64, player2@);
    lemma_rating_set(first, player2, rated.1 as u64, other);
    lemma_rating_set(first, player2, rated.1 as u64, player1@);
}

/// Whether the identity `a` comes before the identity `b`.
pub fn addr_before(a: &String, b: &String) -> (yes: bool)
    ensures
        yes == before(a@, b@),
{
    let x = a.as_str().as_bytes();
    let y = b.as_str().as_bytes();
    let mut k: usize = 0;
    while k < x.len() && k < y.len()
        invariant
            k <= x.len(),
            k <= y.len(),
            x@ == encode_utf8(a@),
            y@ == encode_utf8(b@),
            lex_lt(x@, y@, 0) == lex_lt(x@, y@, k as int),
        decreases x.len() - k,
    {
        if x[k] != y[k] {
            assert(lex_lt(x@, y@, k as int) == (x@[k as int] < y@[k as int]));
            return x[k] < y[k];
        }
        k = k + 1;
    }
    k < y.len()
}

/// The position of the entry for `addr`, or the length of the book.
pub fn find_rating(book: &Vec<RatingSummary>, addr: &String) -> (at: usize)
    ensures
        at == rating_pos(book@, addr@, 0),
        at <= book.len(),
{
    let mut k: usize = 0;
    while k < book.len()
        invariant
            k <= book.len(),
            rating_pos(book@, addr@, 0) == rating_pos(book@, addr@, k as int),
        decreases book.len() - k,
    {
        if book[k].addr == *addr {
            return k;
        }
        k = k + 1;
    }
    k
}

/// The position at which an entry for `addr` belongs.
pub fn find_slot(book: &Vec<RatingSummary>, addr: &String) -> (at: usize)
    ensures
        at == slot(book@, addr@, 0),
        at <= book.len(),
{
    let mut k: usize = 0;
    while k < book.len()
        invariant
            k <= book.len(),
            slot(book@, addr@, 0) == slot(book@, addr@, k as int),
        decreases book.len() - k,
    {
        if !addr_before(&book[k].addr, addr) {
            return k;
        }
        k = k + 1;
    }
    k
}

/// Gives `addr` the default rating unless the book rates them already.
pub fn def_player_rating(book: &mut Vec<RatingSummary>, addr: String)
    requires
        sorted_book(old(book)@),
    ensures
        final(book)@ == with_default(old(book)@, addr),
        sorted_book(final(book)@),
{
    let at: usize = find_rating(book, &addr);
    if at == book.len() {
        let to: usize = find_slot(book, &addr);
        let entry = RatingSummary { addr, rating: DEFAULT_RATING };
        proof {
            lemma_insert_keeps_sorted(book@, entry);
        }
        book.insert(to, entry);
    }
}

/// The rating of `addr`: the default where the book does not rate them.
pub fn get_player_rating(book: &Vec<RatingSummary>, addr: &String) -> (rating: u64)
    ensures
        rating == rating_of(book@, addr@),
{
    let at: usize = find_rating(book, addr);
    if at < book.len() {
        book[at].rating
    } else {
        DEFAULT_RATING
    }
}

/// Sets the rating of `addr`.
pub fn update_player_rating(book: &mut Vec<RatingSummary>, addr: String, rating: u64)
    requires
        sorted_book(old(book)@),
    ensures
        final(book)@ == with_rating(old(book)@, addr, rating),
        sorted_book(final(book)@),
{
    let at: usize = find_rating(book, &addr);
    if at < book.len() {
        let entry = book.remove(at);
        book.insert(at, RatingSummary { addr: entry.addr, rating });
        assert(book@ =~= with_rating(old(book)@, addr, rating));
        assert forall|x: int, y: int| 0 <= x < y < book@.len() implies before(
            book@[x].addr@,
            book@[y].addr@,
        ) by {
            assert(book@[x].addr == old(book)@[x].addr);
            assert(book@[y].addr == old(book)@[y].addr);
        }
    } else {
        let to: usize = find_slot(book, &addr);
        let entry = RatingSummary { addr, rating };
        proof {
            lemma_insert_keeps_sorted(book@, entry);
        }
        book.insert(to, entry);
    }
}

/// Rates a finished game between `player1` and `player2`.
pub fn update_players_rating(
    book: &mut Vec<RatingSummary>,
    player1: &String,
    player2: &String,
    outcome: Outcomes,
)
    requires
        sorted_book(old(book)@),
    ensures
        final(book)@ == after_game(old(book)@, *player1, *player2, outcome, EloConfig::new_spec()),
        sorted_book(final(book)@),
{
    let cfg = EloConfig::new();
    let rating1: u64 = get_player_rating(book, player1);
    let rating2: u64 = get_player_rating(book, player2);
    let rated = elo(rating1, rating2, outcome, &cfg);
    update_player_rating(book, player1.clone(), rated.0);
    update_player_rating(book, player2.clone(), rated.1);
}

} // verus!
