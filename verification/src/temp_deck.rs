use vstd::prelude::*;

use crate::card_logic::{all_energy_types, energy_of_rank};
use crate::database::{get_card_by_enum, spec_card_by_enum, CardId};
use crate::models::{Card, CardView, EnergyType, TrainerType};
use crate::state::opt_card_view;
use crate::text::{
    chars_of, decimal_text, decimal_value, digit_char, digit_value, is_digit, parses_unsigned, unsigned_value, usize_text,
};

verus! {

/// Every catalogued card id, in declaration order.
pub open spec fn catalogue() -> Seq<CardId> {
    seq![
        CardId::A1001Bulbasaur,
        CardId::A1055Blastoise,
        CardId::A1196Meowth,
        CardId::A1211Snorlax,
        CardId::A1a006Serperior,
        CardId::A2147GiantCape,
        CardId::A3147LeafCape,
        CardId::B3b065ElegantCape,
        CardId::B3a069AncientBoosterEnergyCapsule,
        CardId::A4a067InflatableBoat,
        CardId::A4a068MemoryLight,
        CardId::B2a087BigAirBalloon,
        CardId::B3b064SmallBalloon,
        CardId::B2155PeculiarPlaza,
        CardId::B2153TrainingArea,
        CardId::B2154StartingPlains,
        CardId::B2a093Mesagoza,
        CardId::B2b069HikingTrail,
        CardId::B3155BoundedField,
        CardId::B3154ArenaofAntiquity,
        CardId::B3153FragrantForest,
        CardId::B3a074AreaZero,
        CardId::B3b069KidsRoom,
        CardId::B4154SoothingShore,
        CardId::B4155RainbowCave,
        CardId::B4a072Arcade,
        CardId::A1053Squirtle,
        CardId::A1054Wartortle,
        CardId::A1059Poliwag,
        CardId::A1074Staryu,
        CardId::A1075Starmie,
        CardId::A1076StarmieEx,
        CardId::A1077Magikarp,
        CardId::A1094Pikachu,
        CardId::A1099Voltorb,
        CardId::A1100Electrode,
        CardId::A1129MewtwoEx,
        CardId::A1143Machop,
        CardId::A1145Machamp,
        CardId::A1155Hitmonchan,
        CardId::A1156Rhyhorn,
        CardId::A1189Rattata,
        CardId::A1202Chansey,
        CardId::A1223Giovanni,
        CardId::A1225Sabrina,
        CardId::A2148RockyHelmet,
        CardId::A2150Cyrus,
        CardId::A3144RareCandy,
        CardId::PA001Potion,
        CardId::PA007ProfessorsResearch,
    ]
}

/// The catalogue lists every card id, so a search of it misses no card.
pub proof fn law_catalogue_lists_every_card(id: CardId)
    ensures
        catalogue().contains(id),
{
    let c = catalogue();
    let i: int = match id {
        CardId::A1001Bulbasaur => 0,
        CardId::A1055Blastoise => 1,
        CardId::A1196Meowth => 2,
        CardId::A1211Snorlax => 3,
        CardId::A1a006Serperior => 4,
        CardId::A2147GiantCape => 5,
        CardId::A3147LeafCape => 6,
        CardId::B3b065ElegantCape => 7,
        CardId::B3a069AncientBoosterEnergyCapsule => 8,
        CardId::A4a067InflatableBoat => 9,
        CardId::A4a068MemoryLight => 10,
        CardId::B2a087BigAirBalloon => 11,
        CardId::B3b064SmallBalloon => 12,
        CardId::B2155PeculiarPlaza => 13,
        CardId::B2153TrainingArea => 14,
        CardId::B2154StartingPlains => 15,
        CardId::B2a093Mesagoza => 16,
        CardId::B2b069HikingTrail => 17,
        CardId::B3155BoundedField => 18,
        CardId::B3154ArenaofAntiquity => 19,
        CardId::B3153FragrantForest => 20,
        CardId::B3a074AreaZero => 21,
        CardId::B3b069KidsRoom => 22,
        CardId::B4154SoothingShore => 23,
        CardId::B4155RainbowCave => 24,
        CardId::B4a072Arcade => 25,
        CardId::A1053Squirtle => 26,
        CardId::A1054Wartortle => 27,
        CardId::A1059Poliwag => 28,
        CardId::A1074Staryu => 29,
        CardId::A1075Starmie => 30,
        CardId::A1076StarmieEx => 31,
        CardId::A1077Magikarp => 32,
        CardId::A1094Pikachu => 33,
        CardId::A1099Voltorb => 34,
        CardId::A1100Electrode => 35,
        CardId::A1129MewtwoEx => 36,
        CardId::A1143Machop => 37,
        CardId::A1145Machamp => 38,
        CardId::A1155Hitmonchan => 39,
        CardId::A1156Rhyhorn => 40,
        CardId::A1189Rattata => 41,
        CardId::A1202Chansey => 42,
        CardId::A1223Giovanni => 43,
        CardId::A1225Sabrina => 44,
        CardId::A2148RockyHelmet => 45,
        CardId::A2150Cyrus => 46,
        CardId::A3144RareCandy => 47,
        CardId::PA001Potion => 48,
        CardId::PA007ProfessorsResearch => 49,
    };
    assert(c[i] == id);
}

/// Every catalogued card id, in declaration order.
pub fn all_card_ids() -> (r: Vec<CardId>)
    ensures
        r@ == catalogue(),
{
    let r = vec![
        CardId::A1001Bulbasaur,
        CardId::A1055Blastoise,
        CardId::A1196Meowth,
        CardId::A1211Snorlax,
        CardId::A1a006Serperior,
        CardId::A2147GiantCape,
        CardId::A3147LeafCape,
        CardId::B3b065ElegantCape,
        CardId::B3a069AncientBoosterEnergyCapsule,
        CardId::A4a067InflatableBoat,
        CardId::A4a068MemoryLight,
        CardId::B2a087BigAirBalloon,
        CardId::B3b064SmallBalloon,
        CardId::B2155PeculiarPlaza,
        CardId::B2153TrainingArea,
        CardId::B2154StartingPlains,
        CardId::B2a093Mesagoza,
        CardId::B2b069HikingTrail,
        CardId::B3155BoundedField,
        CardId::B3154ArenaofAntiquity,
        CardId::B3153FragrantForest,
        CardId::B3a074AreaZero,
        CardId::B3b069KidsRoom,
        CardId::B4154SoothingShore,
        CardId::B4155RainbowCave,
        CardId::B4a072Arcade,
        CardId::A1053Squirtle,
        CardId::A1054Wartortle,
        CardId::A1059Poliwag,
        CardId::A1074Staryu,
        CardId::A1075Starmie,
        CardId::A1076StarmieEx,
        CardId::A1077Magikarp,
        CardId::A1094Pikachu,
        CardId::A1099Voltorb,
        CardId::A1100Electrode,
        CardId::A1129MewtwoEx,
        CardId::A1143Machop,
        CardId::A1145Machamp,
        CardId::A1155Hitmonchan,
        CardId::A1156Rhyhorn,
        CardId::A1189Rattata,
        CardId::A1202Chansey,
        CardId::A1223Giovanni,
        CardId::A1225Sabrina,
        CardId::A2148RockyHelmet,
        CardId::A2150Cyrus,
        CardId::A3144RareCandy,
        CardId::PA001Potion,
        CardId::PA007ProfessorsResearch,
    ];
    assert(r@ =~= catalogue());
    r
}

/// The first id of `ids` whose card carries the id text `id`.
pub open spec fn first_with_id(ids: Seq<CardId>, id: Seq<char>) -> Option<CardId>
    decreases ids.len(),
{
    if ids.len() == 0 {
        None
    } else if spec_card_by_enum(ids[0]).id() == id {
        Some(ids[0])
    } else {
        first_with_id(ids.skip(1), id)
    }
}

/// The catalogued card with this id text (e.g. "A1 003"), the first one in catalogue order.
pub fn find_card_id(id: &str) -> (r: Option<CardId>)
    ensures
        r == first_with_id(catalogue(), id@),
{
    let ids = all_card_ids();
    let mut i: usize = 0;
    assert(catalogue().skip(0) =~= catalogue());
    while i < ids.len()
        invariant
            ids@ == catalogue(),
            i <= ids@.len(),
            first_with_id(catalogue(), id@) == first_with_id(catalogue().skip(i as int), id@),
        decreases ids.len() - i,
    {
        let card = get_card_by_enum(ids[i]);
        let card_id_str = card.get_id();
        let ghost rest = catalogue().skip(i as int);
        assert(rest[0] == ids@[i as int]);
        assert(rest.skip(1) =~= catalogue().skip(i + 1));
        if card_id_str.as_str().unicode_len() == id.unicode_len() && chars_eq(
            card_id_str.as_str(),
            id,
        ) {
            return Some(ids[i]);
        }
        i += 1;
    }
    assert(catalogue().skip(ids@.len() as int) =~= Seq::<CardId>::empty());
    None
}

/// Whether two strings have the same characters.
fn chars_eq(a: &str, b: &str) -> (r: bool)
    ensures
        r == (a@ == b@),
{
    let n = a.unicode_len();
    if n != b.unicode_len() {
        return false;
    }
    let mut i: usize = 0;
    while i < n
        invariant
            n == a@.len(),
            n == b@.len(),
            i <= n,
            forall|j: int| 0 <= j < i ==> a@[j] == b@[j],
        decreases n - i,
    {
        if a.get_char(i) != b.get_char(i) {
            return false;
        }
        i += 1;
    }
    assert(a@ =~= b@);
    true
}

/// The name an Energy type has in deck files.
pub open spec fn energy_name(e: EnergyType) -> Seq<char> {
    match e {
        EnergyType::Grass => "Grass"@,
        EnergyType::Fire => "Fire"@,
        EnergyType::Water => "Water"@,
        EnergyType::Lightning => "Lightning"@,
        EnergyType::Psychic => "Psychic"@,
        EnergyType::Fighting => "Fighting"@,
        EnergyType::Darkness => "Darkness"@,
        EnergyType::Metal => "Metal"@,
        EnergyType::Dragon => "Dragon"@,
        EnergyType::Colorless => "Colorless"@,
    }
}

/// The name of an Energy type in deck files.
pub fn energy_name_of(e: EnergyType) -> (r: &'static str)
    ensures
        r@ == energy_name(e),
{
    match e {
        EnergyType::Grass => "Grass",
        EnergyType::Fire => "Fire",
        EnergyType::Water => "Water",
        EnergyType::Lightning => "Lightning",
        EnergyType::Psychic => "Psychic",
        EnergyType::Fighting => "Fighting",
        EnergyType::Darkness => "Darkness",
        EnergyType::Metal => "Metal",
        EnergyType::Dragon => "Dragon",
        EnergyType::Colorless => "Colorless",
    }
}

/// An Energy type the Energy Zone can generate for a deck of this type: Water stands in for
/// Colorless and Dragon.
pub fn get_valid_fallback_energy(energy_type: EnergyType) -> (r: EnergyType)
    ensures
        r == if energy_type == EnergyType::Colorless || energy_type == EnergyType::Dragon {
            EnergyType::Water
        } else {
            energy_type
        },
{
    if energy_type == EnergyType::Colorless || energy_type == EnergyType::Dragon {
        EnergyType::Water
    } else {
        energy_type
    }
}

/// A character with the Unicode `White_Space` property.
pub open spec fn is_white(c: char) -> bool {
    ||| ('\u{9}' <= c <= '\u{d}')
    ||| c == ' '
    ||| c == '\u{85}'
    ||| c == '\u{a0}'
    ||| c == '\u{1680}'
    ||| ('\u{2000}' <= c <= '\u{200a}')
    ||| c == '\u{2028}'
    ||| c == '\u{2029}'
    ||| c == '\u{202f}'
    ||| c == '\u{205f}'
    ||| c == '\u{3000}'
}

fn char_is_white(c: char) -> (r: bool)
    ensures
        r == is_white(c),
{
    ('\u{9}' <= c && c <= '\u{d}') || c == ' ' || c == '\u{85}' || c == '\u{a0}' || c
        == '\u{1680}' || ('\u{2000}' <= c && c <= '\u{200a}') || c == '\u{2028}' || c
        == '\u{2029}' || c == '\u{202f}' || c == '\u{205f}' || c == '\u{3000}'
}

/// The words of `s` as `str::split_whitespace` yields them: the maximal runs of characters that
/// are not white space, as `(start, end)` positions.
pub open spec fn word_spans(s: Seq<char>) -> Seq<(int, int)>
    decreases s.len(),
{
    if s.len() == 0 {
        Seq::empty()
    } else {
        let w = word_spans(s.drop_last());
        let n = s.len() as int;
        if is_white(s.last()) {
            w
        } else if n >= 2 && !is_white(s[n - 2]) && w.len() > 0 {
            w.update(w.len() - 1, (w.last().0, n))
        } else {
            w.push((n - 1, n))
        }
    }
}

pub open spec fn words(s: Seq<char>) -> Seq<Seq<char>> {
    word_spans(s).map_values(|p: (int, int)| s.subrange(p.0, p.1))
}

proof fn lemma_word_spans_bounds(s: Seq<char>)
    ensures
        forall|j: int|
            0 <= j < word_spans(s).len() ==> 0 <= (#[trigger] word_spans(s)[j]).0 < word_spans(
                s,
            )[j].1 <= s.len(),
        s.len() > 0 && !is_white(s.last()) ==> word_spans(s).len() > 0 && word_spans(s).last().1
            == s.len(),
    decreases s.len(),
{
    if s.len() > 0 {
        let p = s.drop_last();
        lemma_word_spans_bounds(p);
        let n = s.len() as int;
        let w = word_spans(p);
        if n >= 2 {
            assert(p.last() == s[n - 2]);
        }
        if !is_white(s.last()) && n >= 2 && !is_white(s[n - 2]) && w.len() > 0 {
            let u = w.update(w.len() - 1, (w.last().0, n));
            assert(word_spans(s) == u);
            assert forall|j: int| 0 <= j < u.len() implies 0 <= (#[trigger] u[j]).0 < u[j].1 <= n by {
                if j < w.len() - 1 {
                    assert(u[j] == w[j]);
                } else {
                    assert(w[w.len() - 1] == w.last());
                }
            }
        } else if !is_white(s.last()) {
            let u = w.push((n - 1, n));
            assert forall|j: int| 0 <= j < u.len() implies 0 <= (#[trigger] u[j]).0 < u[j].1 <= n by {
                if j < w.len() {
                    assert(u[j] == w[j]);
                }
            }
        }
    }
}

/// The `(start, end)` positions of the words of `v`.
fn word_spans_of(v: &Vec<char>) -> (r: Vec<(usize, usize)>)
    ensures
        r@.len() == word_spans(v@).len(),
        forall|j: int|
            0 <= j < r@.len() ==> (#[trigger] r@[j]).0 as int == word_spans(v@)[j].0 && r@[j].1
                as int == word_spans(v@)[j].1,
{
    let mut spans: Vec<(usize, usize)> = Vec::new();
    let mut i: usize = 0;
    while i < v.len()
        invariant
            i <= v@.len(),
            spans@.len() == word_spans(v@.take(i as int)).len(),
            forall|j: int|
                0 <= j < spans@.len() ==> (#[trigger] spans@[j]).0 as int == word_spans(
                    v@.take(i as int),
                )[j].0 && spans@[j].1 as int == word_spans(v@.take(i as int))[j].1,
        decreases v.len() - i,
    {
        let ghost pre = v@.take(i as int);
        let ghost post = v@.take(i + 1);
        assert(post.drop_last() =~= pre);
        assert(post.last() == v@[i as int]);
        proof {
            lemma_word_spans_bounds(pre);
            if i >= 1 {
                assert(post[i - 1] == pre.last());
            }
        }
        let c = v[i];
        if !char_is_white(c) {
            if i >= 1 && !char_is_white(v[i - 1]) {
                let last = spans.len() - 1;
                let start = spans[last].0;
                spans.set(last, (start, i + 1));
            } else {
                spans.push((i, i + 1));
            }
        }
        i += 1;
    }
    assert(v@.take(v@.len() as int) =~= v@);
    spans
}

/// A card id without the leading zeros of its number: "A1 001" becomes "A1 1". An id that is
/// not two words is kept as it is, and a number that does not read as one becomes 0.
pub open spec fn spec_format_card_id(id: Seq<char>) -> Seq<char> {
    let w = words(id);
    if w.len() == 2 {
        w[0] + " "@ + decimal_text(
            if parses_unsigned(w[1], u32::MAX as int) {
                unsigned_value(w[1]) as nat
            } else {
                0
            },
        )
    } else {
        id
    }
}

/// Formats a card id without the leading zeros of its number.
pub fn format_card_id(id: &str) -> (r: String)
    ensures
        r@ == spec_format_card_id(id@),
{
    let v = chars_of(id);
    let spans = word_spans_of(&v);
    proof {
        lemma_word_spans_bounds(id@);
    }
    if spans.len() == 2 {
        let (a0, b0) = spans[0];
        let (a1, b1) = spans[1];
        let ghost w = words(id@);
        assert(w[0] == id@.subrange(a0 as int, b0 as int));
        assert(w[1] == id@.subrange(a1 as int, b1 as int));
        let number = match crate::text::parse_unsigned(&v, a1, b1, u32::MAX as u64) {
            Some(n) => n,
            None => 0,
        };
        let digits = usize_text(number as usize);
        let mut out = String::from_str(id.substring_char(a0, b0));
        out.append(" ");
        out.append(digits.as_str());
        out
    } else {
        String::from_str(id)
    }
}


/// A deck line: the count, the card's name and its id without leading zeros.
pub open spec fn card_line(card: CardView, count: u8) -> Seq<char> {
    decimal_text(count as nat) + " "@ + card.name() + " "@ + spec_format_card_id(card.id())
}

/// The deck line of `count` copies of `card`.
pub fn format_card_line(card: &Card, count: u8) -> (r: String)
    ensures
        r@ == card_line(card@, count),
{
    let id = card.get_id();
    let formatted_id = format_card_id(id.as_str());
    let name = card.get_name();
    let mut line = usize_text(count as usize);
    line.append(" ");
    line.append(name.as_str());
    line.append(" ");
    line.append(formatted_id.as_str());
    line
}

/// The cards present in an evolution line, in order.
pub open spec fn line_cards(line: Seq<Option<CardView>>) -> Seq<CardView>
    decreases line.len(),
{
    if line.len() == 0 {
        Seq::empty()
    } else {
        let rest = line_cards(line.drop_last());
        match line.last() {
            Some(c) => rest.push(c),
            None => rest,
        }
    }
}

/// Some attack of one of `cards` has an Energy of type `t` in its cost.
pub open spec fn uses_type(cards: Seq<CardView>, t: EnergyType) -> bool {
    exists|i: int, j: int|
        0 <= i < cards.len() && 0 <= j < cards[i].attacks().len() && (#[trigger] cards[i].attacks()[j]).energy_required.contains(
            t,
        )
}

/// The typed Energy the attacks of `cards` ask for, in declaration order.
pub open spec fn deck_energy_types(cards: Seq<CardView>) -> Seq<EnergyType> {
    all_energy_types().filter(|t: EnergyType| t != EnergyType::Colorless && uses_type(cards, t))
}

/// The texts of `parts` joined by ", ".
pub open spec fn join_comma(parts: Seq<Seq<char>>) -> Seq<char>
    decreases parts.len(),
{
    if parts.len() == 0 {
        Seq::empty()
    } else if parts.len() == 1 {
        parts[0]
    } else {
        join_comma(parts.drop_last()) + ", "@ + parts.last()
    }
}

/// The Energy line of a deck for `cards`: the typed Energy their attacks need, or the fallback
/// when they need none.
pub open spec fn energy_line_text(cards: Seq<CardView>, fallback: EnergyType) -> Seq<char> {
    let types = deck_energy_types(cards);
    if types.len() == 0 {
        energy_name(fallback)
    } else {
        join_comma(types.map_values(|t: EnergyType| energy_name(t)))
    }
}

/// Whether some attack of `card` asks for an Energy of type `t`.
fn card_uses_type(card: &Card, t: EnergyType) -> (r: bool)
    ensures
        r == exists|j: int|
            0 <= j < card@.attacks().len() && (#[trigger] card@.attacks()[j]).energy_required.contains(
                t,
            ),
{
    let attacks = card.get_attacks();
    let mut j: usize = 0;
    while j < attacks.len()
        invariant
            j <= attacks@.len(),
            crate::models::attacks_view(attacks@) == card@.attacks(),
            forall|m: int|
                0 <= m < j ==> !(#[trigger] card@.attacks()[m]).energy_required.contains(t),
        decreases attacks.len() - j,
    {
        let cost = &attacks[j].energy_required;
        assert(card@.attacks()[j as int].energy_required == cost@);
        let mut k: usize = 0;
        while k < cost.len()
            invariant
                k <= cost@.len(),
                j < attacks@.len(),
                crate::models::attacks_view(attacks@) == card@.attacks(),
                card@.attacks()[j as int].energy_required == cost@,
                forall|m: int| 0 <= m < k ==> cost@[m] != t,
            decreases cost.len() - k,
        {
            if cost[k] == t {
                assert(cost@.contains(t)) by {
                    assert(cost@[k as int] == t);
                }
                assert(card@.attacks()[j as int].energy_required.contains(t));
                return true;
            }
            k += 1;
        }
        j += 1;
    }
    false
}

/// Whether some card of the line asks for an Energy of type `t`.
fn line_uses_type(cards: &Vec<&Card>, t: EnergyType) -> (r: bool)
    ensures
        r == uses_type(cards@.map_values(|c: &Card| c@), t),
{
    let ghost v = cards@.map_values(|c: &Card| c@);
    let mut i: usize = 0;
    while i < cards.len()
        invariant
            i <= cards@.len(),
            v == cards@.map_values(|c: &Card| c@),
            forall|m: int, j: int|
                0 <= m < i && 0 <= j < v[m].attacks().len() ==> !(#[trigger] v[m].attacks()[j]).energy_required.contains(
                    t,
                ),
        decreases cards.len() - i,
    {
        if card_uses_type(cards[i], t) {
            assert(v[i as int] == cards@[i as int]@);
            return true;
        }
        assert(v[i as int] == cards@[i as int]@);
        i += 1;
    }
    false
}

/// The Energy line of a deck for the given cards, as text.
pub fn calculate_energy_types(cards: &Vec<&Card>, fallback_type: EnergyType) -> (r: String)
    ensures
        r@ == energy_line_text(cards@.map_values(|c: &Card| c@), fallback_type),
{
    let ghost v = cards@.map_values(|c: &Card| c@);
    let ghost pred = |t: EnergyType| t != EnergyType::Colorless && uses_type(v, t);
    let mut out = String::new();
    let mut found: usize = 0;
    let mut k: usize = 0;
    while k < 10
        invariant
            k <= 10,
            v == cards@.map_values(|c: &Card| c@),
            pred == (|t: EnergyType| t != EnergyType::Colorless && uses_type(v, t)),
            found == all_energy_types().take(k as int).filter(pred).len(),
            found <= k,
            found > 0 ==> out@ == join_comma(
                all_energy_types().take(k as int).filter(pred).map_values(
                    |t: EnergyType| energy_name(t),
                ),
            ),
            found == 0 ==> out@ == Seq::<char>::empty(),
        decreases 10 - k,
    {
        let t = energy_of_rank(k);
        let ghost pre = all_energy_types().take(k as int);
        proof {
            assert(all_energy_types().take(k + 1) =~= pre.push(t));
            pre.lemma_filter_push(t, pred);
            pre.lemma_filter_len(pred);
        }
        if t != EnergyType::Colorless && line_uses_type(cards, t) {
            let ghost before = pre.filter(pred).map_values(|e: EnergyType| energy_name(e));
            if found > 0 {
                out.append(", ");
            }
            out.append(energy_name_of(t));
            found += 1;
            proof {
                let after = pre.filter(pred).push(t).map_values(|e: EnergyType| energy_name(e));
                assert(after =~= before.push(energy_name(t)));
                assert(after.drop_last() =~= before);
                if found == 1 {
                    assert(before.len() == 0);
                    assert(out@ =~= energy_name(t));
                }
            }
        }
        k += 1;
    }
    assert(all_energy_types().take(10) =~= all_energy_types());
    if found == 0 {
        return String::from_str(energy_name_of(fallback_type));
    }
    out
}


/// Some card of `cards` is a Basic Pokémon.
pub open spec fn has_basic(cards: Seq<CardView>) -> bool {
    exists|i: int| 0 <= i < cards.len() && (#[trigger] cards[i]).is_basic()
}

/// The Pokémon lines of a deck for `cards`: two of each, and two Meowth when none is a Basic.
pub open spec fn deck_lines(cards: Seq<CardView>) -> Seq<Seq<char>> {
    let own = cards.map_values(|c: CardView| card_line(c, 2));
    if has_basic(cards) {
        own
    } else {
        own.push(card_line(spec_card_by_enum(CardId::A1196Meowth), 2))
    }
}

/// Lines, each ended by a newline.
pub open spec fn lines_text(lines: Seq<Seq<char>>) -> Seq<char>
    decreases lines.len(),
{
    if lines.len() == 0 {
        Seq::empty()
    } else {
        lines_text(lines.drop_last()) + lines.last() + "\n"@
    }
}

/// The Trainer cards every evolution-line deck holds.
pub open spec fn staple_text() -> Seq<char> {
    "2 Giovanni A1 223\n"@ + "2 Poké Ball A2b 111\n"@ + "2 Professor's Research A4b 373\n"@
        + "2 Copycat B1 270\n"@ + "2 Giant Cape A2 147\n"@
}

/// The Trainer cards that fill the deck up to 20 after `num` Pokémon lines.
pub open spec fn filler_text(num: nat) -> Seq<char> {
    if num == 4 {
        "1 Sabrina A1 225\n"@ + "1 Cyrus A2 150\n"@
    } else if num == 3 {
        "2 Sabrina A1 225\n"@ + "2 Cyrus A2 150\n"@
    } else if num == 2 {
        "2 Sabrina A1 225\n"@ + "2 Cyrus A2 150\n"@ + "2 Potion P-A 1\n"@
    } else {
        "2 Sabrina A1 225\n"@ + "2 Cyrus A2 150\n"@ + "2 Potion P-A 1\n"@ + "2 X Speed P-A 2\n"@
    }
}

pub open spec fn opt_cards_view(line: Seq<Option<Card>>) -> Seq<Option<CardView>> {
    line.map_values(|o: Option<Card>| opt_card_view(o))
}

/// The deck text for an evolution line: the Energy line, two of each card of the line (and two
/// Meowth when the line has no Basic), the staple Trainers and the Trainers that fill it up.
pub open spec fn evolution_line_deck(line: Seq<Option<CardView>>, fallback: EnergyType) -> Seq<
    char,
> {
    let cards = line_cards(line);
    let lines = deck_lines(cards);
    "Energy: "@ + energy_line_text(cards, fallback) + "\n"@ + lines_text(lines) + staple_text()
        + filler_text(lines.len())
}

/// The cards present in an evolution line.
fn collect_line_cards(evolution_line: &Vec<Option<Card>>) -> (r: Vec<&Card>)
    ensures
        r@.map_values(|c: &Card| c@) == line_cards(opt_cards_view(evolution_line@)),
{
    let ghost lv = opt_cards_view(evolution_line@);
    let mut cards: Vec<&Card> = Vec::new();
    let mut i: usize = 0;
    while i < evolution_line.len()
        invariant
            i <= evolution_line@.len(),
            lv == opt_cards_view(evolution_line@),
            cards@.map_values(|c: &Card| c@) == line_cards(lv.take(i as int)),
        decreases evolution_line.len() - i,
    {
        let ghost before = cards@;
        assert(lv.take(i + 1).drop_last() =~= lv.take(i as int));
        assert(lv.take(i + 1).last() == opt_card_view(evolution_line@[i as int]));
        match &evolution_line[i] {
            Some(c) => {
                cards.push(c);
                assert(cards@.map_values(|c: &Card| c@) =~= before.map_values(|c: &Card| c@).push(
                    c@,
                ));
            },
            None => {},
        }
        i += 1;
    }
    assert(lv.take(evolution_line@.len() as int) =~= lv);
    cards
}

/// Whether one of the cards is a Basic Pokémon.
fn any_basic(cards: &Vec<&Card>) -> (r: bool)
    ensures
        r == has_basic(cards@.map_values(|c: &Card| c@)),
{
    let ghost cv = cards@.map_values(|c: &Card| c@);
    let mut k: usize = 0;
    while k < cards.len()
        invariant
            k <= cards@.len(),
            cv == cards@.map_values(|c: &Card| c@),
            forall|m: int| 0 <= m < k ==> !(#[trigger] cv[m]).is_basic(),
        decreases cards.len() - k,
    {
        assert(cv[k as int] == cards@[k as int]@);
        if cards[k].is_basic() {
            return true;
        }
        k += 1;
    }
    false
}

/// Appends two copies' line of each card, each ended by a newline.
fn append_card_lines(deck: &mut String, cards: &Vec<&Card>)
    ensures
        final(deck)@ == old(deck)@ + lines_text(
            cards@.map_values(|c: &Card| c@).map_values(|c: CardView| card_line(c, 2)),
        ),
{
    let ghost cv = cards@.map_values(|c: &Card| c@);
    let ghost own = cv.map_values(|c: CardView| card_line(c, 2));
    let ghost head = deck@;
    let mut j: usize = 0;
    while j < cards.len()
        invariant
            j <= cards@.len(),
            cv == cards@.map_values(|c: &Card| c@),
            own == cv.map_values(|c: CardView| card_line(c, 2)),
            deck@ == head + lines_text(own.take(j as int)),
        decreases cards.len() - j,
    {
        assert(cv[j as int] == cards@[j as int]@);
        let line = format_card_line(cards[j], 2);
        deck.append(line.as_str());
        deck.append("\n");
        assert(own.take(j + 1).drop_last() =~= own.take(j as int));
        j += 1;
    }
    assert(own.take(cards@.len() as int) =~= own);
}

/// Appends the staple Trainers and those that fill the deck after `num` Pokémon lines.
fn append_trainers(deck: &mut String, num: usize)
    ensures
        final(deck)@ == old(deck)@ + staple_text() + filler_text(num as nat),
{
    deck.append("2 Giovanni A1 223\n");
    deck.append("2 Poké Ball A2b 111\n");
    deck.append("2 Professor's Research A4b 373\n");
    deck.append("2 Copycat B1 270\n");
    deck.append("2 Giant Cape A2 147\n");
    let ghost with_staples = deck@;
    assert(with_staples =~= old(deck)@ + staple_text());
    if num == 4 {
        deck.append("1 Sabrina A1 225\n");
        deck.append("1 Cyrus A2 150\n");
    } else if num == 3 {
        deck.append("2 Sabrina A1 225\n");
        deck.append("2 Cyrus A2 150\n");
    } else if num == 2 {
        deck.append("2 Sabrina A1 225\n");
        deck.append("2 Cyrus A2 150\n");
        deck.append("2 Potion P-A 1\n");
    } else {
        deck.append("2 Sabrina A1 225\n");
        deck.append("2 Cyrus A2 150\n");
        deck.append("2 Potion P-A 1\n");
        deck.append("2 X Speed P-A 2\n");
    }
    assert(deck@ =~= with_staples + filler_text(num as nat));
}

/// Builds the deck text for an evolution line (a Pokémon, or a Fossil, with its evolutions).
pub fn generate_evolution_line_deck(
    evolution_line: &Vec<Option<Card>>,
    fallback_energy: EnergyType,
) -> (r: String)
    ensures
        r@ == evolution_line_deck(opt_cards_view(evolution_line@), fallback_energy),
{
    let cards = collect_line_cards(evolution_line);
    let ghost cv = cards@.map_values(|c: &Card| c@);
    let has_basic_card = any_basic(&cards);
    let energy_type = calculate_energy_types(&cards, fallback_energy);
    let mut deck = String::from_str("Energy: ");
    deck.append(energy_type.as_str());
    deck.append("\n");
    append_card_lines(&mut deck, &cards);
    let ghost own = cv.map_values(|c: CardView| card_line(c, 2));
    let num_cards: usize = if has_basic_card {
        cards.len()
    } else if cards.len() < 4 {
        cards.len() + 1
    } else {
        5
    };
    if !has_basic_card {
        let meowth = get_card_by_enum(CardId::A1196Meowth);
        let line = format_card_line(&meowth, 2);
        deck.append(line.as_str());
        deck.append("\n");
        assert(own.push(card_line(spec_card_by_enum(CardId::A1196Meowth), 2)).drop_last() =~= own);
    }
    append_trainers(&mut deck, num_cards);
    deck
}


/// The first id of `ids` whose card satisfies `pred`.
pub open spec fn first_card(ids: Seq<CardId>, pred: spec_fn(CardView) -> bool) -> Option<CardId>
    decreases ids.len(),
{
    if ids.len() == 0 {
        None
    } else if pred(spec_card_by_enum(ids[0])) {
        Some(ids[0])
    } else {
        first_card(ids.skip(1), pred)
    }
}

/// The card of a found id.
pub open spec fn card_of(id: Option<CardId>) -> Option<CardView> {
    match id {
        Some(i) => Some(spec_card_by_enum(i)),
        None => None,
    }
}

/// A Pokémon of the given stage that evolves from `name`.
pub open spec fn evolves_from(stage: u8, name: Seq<char>) -> spec_fn(CardView) -> bool {
    |c: CardView|
        match c {
            CardView::Pokemon(p) => p.stage == stage && p.evolves_from == Some(name),
            CardView::Trainer(_) => false,
        }
}

/// A card with exactly this name.
pub open spec fn named(name: Seq<char>) -> spec_fn(CardView) -> bool {
    |c: CardView| c.name() == name
}

/// Whether `card` is a Pokémon of `stage` that evolves from `name`.
fn card_evolves_from(card: &Card, stage: u8, name: &str) -> (r: bool)
    ensures
        r == (evolves_from(stage, name@))(card@),
{
    match card {
        Card::Pokemon(p) => {
            if p.stage != stage {
                return false;
            }
            match &p.evolves_from {
                Some(from) => chars_eq(from.as_str(), name),
                None => false,
            }
        },
        Card::Trainer(_) => false,
    }
}

/// The first catalogued Pokémon of `stage` that evolves from `name`.
fn find_evolution(name: &str, stage: u8) -> (r: Option<Card>)
    ensures
        opt_card_view(r) == card_of(first_card(catalogue(), evolves_from(stage, name@))),
{
    let ids = all_card_ids();
    let ghost pred = evolves_from(stage, name@);
    let mut i: usize = 0;
    assert(catalogue().skip(0) =~= catalogue());
    while i < ids.len()
        invariant
            ids@ == catalogue(),
            i <= ids@.len(),
            pred == evolves_from(stage, name@),
            first_card(catalogue(), pred) == first_card(catalogue().skip(i as int), pred),
        decreases ids.len() - i,
    {
        let ghost rest = catalogue().skip(i as int);
        assert(rest[0] == ids@[i as int]);
        assert(rest.skip(1) =~= catalogue().skip(i + 1));
        let card = get_card_by_enum(ids[i]);
        if card_evolves_from(&card, stage, name) {
            return Some(card);
        }
        i += 1;
    }
    assert(catalogue().skip(ids@.len() as int) =~= Seq::<CardId>::empty());
    None
}

/// The first catalogued Stage 1 Pokémon that evolves from `basic_name`.
pub fn find_stage1_evolution(basic_name: &str) -> (r: Option<Card>)
    ensures
        opt_card_view(r) == card_of(first_card(catalogue(), evolves_from(1, basic_name@))),
{
    find_evolution(basic_name, 1)
}

/// The first catalogued Stage 2 Pokémon that evolves from `stage1_name`.
pub fn find_stage2_evolution(stage1_name: &str) -> (r: Option<Card>)
    ensures
        opt_card_view(r) == card_of(first_card(catalogue(), evolves_from(2, stage1_name@))),
{
    find_evolution(stage1_name, 2)
}

/// The first catalogued card with exactly this name.
pub fn find_card_by_name(name: &str) -> (r: Option<Card>)
    ensures
        opt_card_view(r) == card_of(first_card(catalogue(), named(name@))),
{
    let ids = all_card_ids();
    let ghost pred = named(name@);
    let mut i: usize = 0;
    assert(catalogue().skip(0) =~= catalogue());
    while i < ids.len()
        invariant
            ids@ == catalogue(),
            i <= ids@.len(),
            pred == named(name@),
            first_card(catalogue(), pred) == first_card(catalogue().skip(i as int), pred),
        decreases ids.len() - i,
    {
        let ghost rest = catalogue().skip(i as int);
        assert(rest[0] == ids@[i as int]);
        assert(rest.skip(1) =~= catalogue().skip(i + 1));
        let card = get_card_by_enum(ids[i]);
        let card_name = card.get_name();
        if chars_eq(card_name.as_str(), name) {
            return Some(card);
        }
        i += 1;
    }
    assert(catalogue().skip(ids@.len() as int) =~= Seq::<CardId>::empty());
    None
}

/// The catalogued card named by an optional name.
pub open spec fn by_name(name: Option<Seq<char>>) -> Option<CardView> {
    match name {
        Some(n) => card_of(first_card(catalogue(), named(n))),
        None => None,
    }
}

/// The Stage 2 that evolves from a found Stage 1, if there is one.
pub open spec fn stage2_after(stage1: Option<CardView>) -> Option<CardView> {
    match stage1 {
        Some(CardView::Pokemon(p)) => card_of(first_card(catalogue(), evolves_from(2, p.name))),
        _ => None,
    }
}

/// The card a found card evolves from, by name.
pub open spec fn before(card: Option<CardView>) -> Option<CardView> {
    match card {
        Some(CardView::Pokemon(p)) => by_name(p.evolves_from),
        _ => None,
    }
}

/// The full evolution line of a card: (Basic, Stage 1, Stage 2), each looked up in the catalogue
/// by the names the cards print.
pub open spec fn spec_evolution_line(card: CardView) -> (
    Option<CardView>,
    Option<CardView>,
    Option<CardView>,
) {
    match card {
        CardView::Pokemon(p) => if p.stage == 0 {
            let stage1 = card_of(first_card(catalogue(), evolves_from(1, p.name)));
            (Some(card), stage1, stage2_after(stage1))
        } else if p.stage == 1 {
            (by_name(p.evolves_from), Some(card), card_of(first_card(catalogue(), evolves_from(2, p.name))))
        } else if p.stage == 2 {
            let stage1 = by_name(p.evolves_from);
            (before(stage1), stage1, Some(card))
        } else {
            (None, None, None)
        },
        CardView::Trainer(_) => (None, None, None),
    }
}

fn find_opt_by_name(name: &Option<String>) -> (r: Option<Card>)
    ensures
        opt_card_view(r) == by_name(crate::models::opt_string_view(*name)),
{
    match name {
        Some(n) => find_card_by_name(n.as_str()),
        None => None,
    }
}

/// The full evolution line of a card: (Basic, Stage 1, Stage 2), where any may be missing.
pub fn get_evolution_line(card: &Card) -> (r: (Option<Card>, Option<Card>, Option<Card>))
    ensures
        (opt_card_view(r.0), opt_card_view(r.1), opt_card_view(r.2)) == spec_evolution_line(
            card@,
        ),
{
    let pokemon = match card {
        Card::Pokemon(p) => p,
        Card::Trainer(_) => {
            return (None, None, None);
        },
    };
    if pokemon.stage == 0 {
        let stage1 = find_stage1_evolution(pokemon.name.as_str());
        let stage2 = match &stage1 {
            Some(Card::Pokemon(s1)) => find_stage2_evolution(s1.name.as_str()),
            _ => None,
        };
        (Some(card.clone()), stage1, stage2)
    } else if pokemon.stage == 1 {
        let basic = find_opt_by_name(&pokemon.evolves_from);
        let stage2 = find_stage2_evolution(pokemon.name.as_str());
        (basic, Some(card.clone()), stage2)
    } else if pokemon.stage == 2 {
        let stage1 = find_opt_by_name(&pokemon.evolves_from);
        let basic = match &stage1 {
            Some(Card::Pokemon(s1)) => find_opt_by_name(&s1.evolves_from),
            _ => None,
        };
        (basic, stage1, Some(card.clone()))
    } else {
        (None, None, None)
    }
}


/// The highest evolution of `card`: its Stage 2 if the catalogue has one, else the highest
/// evolution of its Stage 1, else the card itself. The search follows at most `fuel` Stage 1
/// steps.
pub open spec fn highest_evolution(card: CardView, fuel: nat) -> Option<CardView>
    decreases fuel,
{
    match card {
        CardView::Trainer(_) => None,
        CardView::Pokemon(p) => match card_of(first_card(catalogue(), evolves_from(2, p.name))) {
            Some(stage2) => Some(stage2),
            None => match card_of(first_card(catalogue(), evolves_from(1, p.name))) {
                Some(stage1) => if fuel == 0 {
                    Some(stage1)
                } else {
                    highest_evolution(stage1, (fuel - 1) as nat)
                },
                None => Some(card),
            },
        },
    }
}

/// The highest evolution of a card; `None` for a Trainer.
pub fn find_highest_evolution(card: &Card) -> (r: Option<Card>)
    ensures
        opt_card_view(r) == highest_evolution(card@, catalogue().len()),
{
    let mut current = card.clone();
    let mut fuel: usize = 50;
    assert(catalogue().len() == 50);
    loop
        invariant
            fuel <= 50,
            highest_evolution(card@, catalogue().len()) == highest_evolution(
                current@,
                fuel as nat,
            ),
        decreases fuel,
    {
        let name = match &current {
            Card::Pokemon(p) => p.name.clone(),
            Card::Trainer(_) => {
                return None;
            },
        };
        if let Some(stage2) = find_stage2_evolution(name.as_str()) {
            return Some(stage2);
        }
        match find_stage1_evolution(name.as_str()) {
            Some(stage1) => {
                if fuel == 0 {
                    return Some(stage1);
                }
                current = stage1;
                fuel -= 1;
            },
            None => {
                return Some(current);
            },
        }
    }
}

/// A Pokémon that evolves straight from a card named `name`.
pub open spec fn evolves_from_name(name: Seq<char>) -> spec_fn(CardView) -> bool {
    |c: CardView|
        match c {
            CardView::Pokemon(p) => p.evolves_from == Some(name),
            CardView::Trainer(_) => false,
        }
}

/// The catalogued cards of `ids` that satisfy `pred`, in order.
pub open spec fn all_cards(ids: Seq<CardId>, pred: spec_fn(CardView) -> bool) -> Seq<CardView>
    decreases ids.len(),
{
    if ids.len() == 0 {
        Seq::empty()
    } else {
        let rest = all_cards(ids.drop_last(), pred);
        if pred(spec_card_by_enum(ids.last())) {
            rest.push(spec_card_by_enum(ids.last()))
        } else {
            rest
        }
    }
}

/// The highest evolutions of `cards`, in order, leaving out the cards that have none.
pub open spec fn highest_of_each(cards: Seq<CardView>) -> Seq<CardView>
    decreases cards.len(),
{
    if cards.len() == 0 {
        Seq::empty()
    } else {
        let rest = highest_of_each(cards.drop_last());
        match highest_evolution(cards.last(), catalogue().len()) {
            Some(h) => rest.push(h),
            None => rest,
        }
    }
}

/// The stage of a card, 0 for a Trainer.
pub open spec fn stage_key(c: CardView) -> u8 {
    match c {
        CardView::Pokemon(p) => p.stage,
        CardView::Trainer(_) => 0,
    }
}

/// The last card of `cards` with the highest stage, as `Iterator::max_by_key` picks it.
pub open spec fn last_highest_stage(cards: Seq<CardView>) -> Option<CardView>
    decreases cards.len(),
{
    if cards.len() == 0 {
        None
    } else {
        match last_highest_stage(cards.drop_last()) {
            None => Some(cards.last()),
            Some(best) => if stage_key(cards.last()) >= stage_key(best) {
                Some(cards.last())
            } else {
                Some(best)
            },
        }
    }
}

/// The highest evolution reachable from a Fossil of this name: of the highest evolutions of the
/// Pokémon that evolve from it, the last one with the highest stage.
pub open spec fn spec_highest_fossil_evolution(fossil_name: Seq<char>) -> Option<CardView> {
    last_highest_stage(
        highest_of_each(all_cards(catalogue(), evolves_from_name(fossil_name))),
    )
}

/// The highest evolution a Fossil of this name leads to.
pub fn find_highest_fossil_evolution(fossil_name: &str) -> (r: Option<Card>)
    ensures
        opt_card_view(r) == spec_highest_fossil_evolution(fossil_name@),
{
    let ids = all_card_ids();
    let ghost pred = evolves_from_name(fossil_name@);
    let mut best: Option<Card> = None;
    let ghost mut direct: Seq<CardView> = Seq::empty();
    let mut i: usize = 0;
    while i < ids.len()
        invariant
            ids@ == catalogue(),
            i <= ids@.len(),
            pred == evolves_from_name(fossil_name@),
            direct == all_cards(catalogue().take(i as int), pred),
            opt_card_view(best) == last_highest_stage(highest_of_each(direct)),
        decreases ids.len() - i,
    {
        assert(catalogue().take(i + 1).drop_last() =~= catalogue().take(i as int));
        assert(catalogue().take(i + 1).last() == ids@[i as int]);
        let card = get_card_by_enum(ids[i]);
        let direct_evolution = match &card {
            Card::Pokemon(p) => match &p.evolves_from {
                Some(from) => chars_eq(from.as_str(), fossil_name),
                None => false,
            },
            Card::Trainer(_) => false,
        };
        assert(direct_evolution == pred(card@));
        if direct_evolution {
            let ghost old_direct = direct;
            proof {
                direct = direct.push(card@);
                assert(direct.drop_last() =~= old_direct);
                assert(direct.last() == card@);
            }
            let found = find_highest_evolution(&card);
            match found {
                Some(highest) => {
                    let ghost hs = highest_of_each(old_direct);
                    assert(highest_of_each(direct) == hs.push(highest@));
                    assert(hs.push(highest@).drop_last() =~= hs);
                    let replace = match &best {
                        None => true,
                        Some(b) => stage_of(&highest) >= stage_of(b),
                    };
                    if replace {
                        best = Some(highest);
                    }
                },
                None => {
                    assert(highest_of_each(direct) == highest_of_each(old_direct));
                },
            }
        }
        i += 1;
    }
    assert(catalogue().take(ids@.len() as int) =~= catalogue());
    best
}

fn stage_of(card: &Card) -> (r: u8)
    ensures
        r == stage_key(card@),
{
    match card {
        Card::Pokemon(p) => p.stage,
        Card::Trainer(_) => 0,
    }
}


/// The deck for a Fossil: the Fossil in place of a Basic, with the evolutions of its highest
/// evolution; an error text when nothing evolves from it.
pub open spec fn spec_fossil_deck(fossil: CardView) -> Seq<char> {
    match spec_highest_fossil_evolution(fossil.name()) {
        Some(CardView::Pokemon(p)) => {
            let line = spec_evolution_line(CardView::Pokemon(p));
            evolution_line_deck(seq![Some(fossil), line.1, line.2], if p.energy_type
                == EnergyType::Colorless || p.energy_type == EnergyType::Dragon {
                EnergyType::Water
            } else {
                p.energy_type
            })
        },
        Some(CardView::Trainer(_)) => "Error: Unexpected card type for fossil evolution"@,
        None => "Error: No Pokemon found that evolves from '"@ + fossil.name() + "' fossil"@,
    }
}

/// The deck for a Fossil card.
pub fn generate_fossil_deck(fossil_card: &Card) -> (r: String)
    ensures
        r@ == spec_fossil_deck(fossil_card@),
{
    let fossil_name = fossil_card.get_name();
    match find_highest_fossil_evolution(fossil_name.as_str()) {
        Some(pokemon_card) => match &pokemon_card {
            Card::Pokemon(pokemon) => {
                let (_, stage1, stage2) = get_evolution_line(&pokemon_card);
                let evolution_line = vec![Some(fossil_card.clone()), stage1, stage2];
                let fallback = get_valid_fallback_energy(pokemon.energy_type);
                let r = generate_evolution_line_deck(&evolution_line, fallback);
                assert(opt_cards_view(evolution_line@) =~= seq![
                    Some(fossil_card@),
                    spec_evolution_line(pokemon_card@).1,
                    spec_evolution_line(pokemon_card@).2,
                ]);
                r
            },
            Card::Trainer(_) => String::from_str("Error: Unexpected card type for fossil evolution"),
        },
        None => {
            let mut msg = String::from_str("Error: No Pokemon found that evolves from '");
            msg.append(fossil_name.as_str());
            msg.append("' fossil");
            msg
        },
    }
}

/// The Trainer-deck template for a Trainer of the given kind, with `line` in the slot of the
/// card it replaces.
pub open spec fn trainer_deck_text(kind: TrainerType, line: Seq<char>) -> Seq<char> {
    if kind == TrainerType::Tool {
        "Energy: Lightning\n2 Tapu Koko ex A3a 19\n2 Giovanni A1 223\n2 Sabrina A1 225\n2 Cyrus A2 150\n2 Poké Ball A2b 111\n2 Professor's Research A4b 373\n2 Copycat B1 270\n2 Potion P-A 1\n2 X Speed P-A 2\n"@
            + line + "\n"@
    } else if kind == TrainerType::Supporter {
        "Energy: Lightning\n2 Tapu Koko ex A3a 19\n2 Giovanni A1 223\n"@ + line
            + "\n2 Giant Cape A2 147\n2 Cyrus A2 150\n2 Poké Ball A2b 111\n2 Professor's Research A4b 373\n2 Copycat B1 270\n2 Potion P-A 1\n2 X Speed P-A 2\n"@
    } else {
        "Energy: Lightning\n2 Tapu Koko ex A3a 19\n2 Giovanni A1 223\n2 Sabrina A1 225\n2 Giant Cape A2 147\n2 Cyrus A2 150\n2 Poké Ball A2b 111\n2 Professor's Research A4b 373\n2 Copycat B1 270\n2 Potion P-A 1\n"@
            + line + "\n"@
    }
}

/// The deck for a Trainer card that is not a Fossil: a fixed Lightning deck with two copies of
/// the card in the slot of a card of its kind.
pub fn generate_trainer_deck(card: &Card, trainer_type: &TrainerType) -> (r: String)
    requires
        *trainer_type != TrainerType::Fossil,
    ensures
        r@ == trainer_deck_text(*trainer_type, card_line(card@, 2)),
{
    let card_line = format_card_line(card, 2);
    match trainer_type {
        TrainerType::Tool => {
            let mut d = String::from_str(
                "Energy: Lightning\n2 Tapu Koko ex A3a 19\n2 Giovanni A1 223\n2 Sabrina A1 225\n2 Cyrus A2 150\n2 Poké Ball A2b 111\n2 Professor's Research A4b 373\n2 Copycat B1 270\n2 Potion P-A 1\n2 X Speed P-A 2\n",
            );
            d.append(card_line.as_str());
            d.append("\n");
            d
        },
        TrainerType::Supporter => {
            let mut d = String::from_str(
                "Energy: Lightning\n2 Tapu Koko ex A3a 19\n2 Giovanni A1 223\n",
            );
            d.append(card_line.as_str());
            d.append(
                "\n2 Giant Cape A2 147\n2 Cyrus A2 150\n2 Poké Ball A2b 111\n2 Professor's Research A4b 373\n2 Copycat B1 270\n2 Potion P-A 1\n2 X Speed P-A 2\n",
            );
            d
        },
        _ => {
            let mut d = String::from_str(
                "Energy: Lightning\n2 Tapu Koko ex A3a 19\n2 Giovanni A1 223\n2 Sabrina A1 225\n2 Giant Cape A2 147\n2 Cyrus A2 150\n2 Poké Ball A2b 111\n2 Professor's Research A4b 373\n2 Copycat B1 270\n2 Potion P-A 1\n",
            );
            d.append(card_line.as_str());
            d.append("\n");
            d
        },
    }
}

/// The deck for any card, before duplicate names are replaced.
pub open spec fn spec_temp_deck_unchecked(card: CardView) -> Seq<char> {
    match card {
        CardView::Pokemon(p) => {
            let line = spec_evolution_line(card);
            evolution_line_deck(seq![line.0, line.1, line.2], if p.energy_type
                == EnergyType::Colorless || p.energy_type == EnergyType::Dragon {
                EnergyType::Water
            } else {
                p.energy_type
            })
        },
        CardView::Trainer(t) => if t.trainer_card_type == TrainerType::Fossil {
            spec_fossil_deck(card)
        } else {
            trainer_deck_text(t.trainer_card_type, card_line(card, 2))
        },
    }
}

/// The deck for any card, before duplicate names are replaced.
fn generate_temp_deck_unchecked(card: &Card) -> (r: String)
    ensures
        r@ == spec_temp_deck_unchecked(card@),
{
    match card {
        Card::Pokemon(pokemon) => {
            let (basic, stage1, stage2) = get_evolution_line(card);
            let evolution_line = vec![basic, stage1, stage2];
            let fallback = get_valid_fallback_energy(pokemon.energy_type);
            let r = generate_evolution_line_deck(&evolution_line, fallback);
            assert(opt_cards_view(evolution_line@) =~= seq![
                spec_evolution_line(card@).0,
                spec_evolution_line(card@).1,
                spec_evolution_line(card@).2,
            ]);
            r
        },
        Card::Trainer(trainer) => {
            if trainer.trainer_card_type == TrainerType::Fossil {
                generate_fossil_deck(card)
            } else {
                generate_trainer_deck(card, &trainer.trainer_card_type)
            }
        },
    }
}


/// The pieces of `s` between its newlines (the last piece may be empty).
pub open spec fn pieces(s: Seq<char>) -> Seq<Seq<char>>
    decreases s.len(),
{
    if s.len() == 0 {
        seq![Seq::empty()]
    } else {
        let p = pieces(s.drop_last());
        if s.last() == '\n' {
            p.push(Seq::empty())
        } else {
            p.update(p.len() - 1, p.last().push(s.last()))
        }
    }
}

/// A line without the carriage return of a "\r\n" ending.
pub open spec fn strip_cr(l: Seq<char>) -> Seq<char> {
    if l.len() > 0 && l.last() == '\r' {
        l.drop_last()
    } else {
        l
    }
}

/// The lines of `s` as `str::lines` yields them: split at "\n" or "\r\n", the final line ending
/// optional.
pub open spec fn text_lines(s: Seq<char>) -> Seq<Seq<char>> {
    let p = pieces(s);
    let q = if p.last().len() == 0 {
        p.drop_last()
    } else {
        p
    };
    q.map_values(|l: Seq<char>| strip_cr(l))
}

pub open spec fn spans_text(v: Seq<char>, spans: Seq<(usize, usize)>) -> Seq<Seq<char>> {
    spans.map_values(|p: (usize, usize)| v.subrange(p.0 as int, p.1 as int))
}

/// The lines of a text.
fn split_lines(text: &str) -> (r: Vec<String>)
    ensures
        crate::puzzles::strings_view(r@) == text_lines(text@),
{
    let v = chars_of(text);
    let mut done: Vec<(usize, usize)> = Vec::new();
    let mut start: usize = 0;
    let mut i: usize = 0;
    assert(spans_text(v@, done@) =~= Seq::<Seq<char>>::empty());
    assert(v@.subrange(0, 0) =~= Seq::<char>::empty());
    assert(v@.take(0) =~= Seq::<char>::empty());
    while i < v.len()
        invariant
            i <= v@.len(),
            start <= i,
            done@.len() <= start,
            forall|j: int|
                0 <= j < done@.len() ==> (#[trigger] done@[j]).0 <= done@[j].1 <= start,
            pieces(v@.take(i as int)) == spans_text(v@, done@).push(
                v@.subrange(start as int, i as int),
            ),
        decreases v.len() - i,
    {
        let ghost pre = v@.take(i as int);
        assert(v@.take(i + 1).drop_last() =~= pre);
        assert(v@.take(i + 1).last() == v@[i as int]);
        let ghost old_done = done@;
        if v[i] == '\n' {
            done.push((start, i));
            start = i + 1;
            assert(spans_text(v@, done@) =~= spans_text(v@, old_done).push(
                v@.subrange(done@.last().0 as int, i as int),
            ));
            assert(v@.subrange(start as int, i + 1) =~= Seq::<char>::empty());
        } else {
            assert(v@.subrange(start as int, i + 1) =~= v@.subrange(start as int, i as int).push(
                v@[i as int],
            ));
        }
        i += 1;
    }
    assert(v@.take(v@.len() as int) =~= v@);
    let n = v.len();
    let ghost all = pieces(v@);
    let keep_last = start < n;
    let mut lines: Vec<String> = Vec::new();
    let count = if keep_last {
        done.len() + 1
    } else {
        done.len()
    };
    let ghost q = if all.last().len() == 0 {
        all.drop_last()
    } else {
        all
    };
    assert(q.len() == count);
    let mut k: usize = 0;
    while k < count
        invariant
            n == v@.len(),
            v@ == text@,
            start <= n,
            k <= count,
            count == q.len(),
            all == pieces(v@),
            all == spans_text(v@, done@).push(v@.subrange(start as int, n as int)),
            q == (if all.last().len() == 0 {
                all.drop_last()
            } else {
                all
            }),
            forall|j: int|
                0 <= j < done@.len() ==> (#[trigger] done@[j]).0 <= done@[j].1 <= start,
            count == (if start < n {
                done@.len() + 1
            } else {
                done@.len()
            }),
            crate::puzzles::strings_view(lines@) == q.take(k as int).map_values(
                |l: Seq<char>| strip_cr(l),
            ),
        decreases count - k,
    {
        let (a, b) = if k < done.len() {
            done[k]
        } else {
            (start, n)
        };
        assert(q[k as int] == v@.subrange(a as int, b as int));
        let e = if b > a && v[b - 1] == '\r' {
            b - 1
        } else {
            b
        };
        assert(strip_cr(v@.subrange(a as int, b as int)) =~= v@.subrange(a as int, e as int));
        let ghost before = lines@;
        let line = String::from_str(text.substring_char(a, e));
        lines.push(line);
        proof {
            assert(lines@ =~= before.push(line));
            assert(crate::puzzles::strings_view(before.push(line)) =~= crate::puzzles::strings_view(
                before,
            ).push(line@));
            assert(q.take(k + 1).map_values(|l: Seq<char>| strip_cr(l)) =~= q.take(
                k as int,
            ).map_values(|l: Seq<char>| strip_cr(l)).push(strip_cr(q[k as int])));
        }
        k += 1;
    }
    assert(q.take(count as int) =~= q);
    lines
}


/// `digits` padded with leading zeros to at least three characters.
pub open spec fn pad3(digits: Seq<char>) -> Seq<char> {
    if digits.len() >= 3 {
        digits
    } else {
        Seq::new((3 - digits.len()) as nat, |i: int| '0') + digits
    }
}

/// The card a deck line names, as its canonical id (number padded to three digits) and its
/// name: `None` for the Energy line, a line of fewer than three words, a number that does not
/// read, or an id the catalogue does not know.
pub open spec fn spec_deck_line_card(line: Seq<char>) -> Option<(Seq<char>, Seq<char>)> {
    let w = words(line);
    if w.len() < 3 || (line.len() >= 7 && line.take(7) == "Energy:"@) {
        None
    } else if !parses_unsigned(w[w.len() - 1], u32::MAX as int) {
        None
    } else {
        let id = w[w.len() - 2] + " "@ + pad3(decimal_text(unsigned_value(w[w.len() - 1]) as nat));
        match first_with_id(catalogue(), id) {
            Some(c) => Some((id, spec_card_by_enum(c).name())),
            None => None,
        }
    }
}

/// Appends `digits` padded with zeros to three characters.
fn append_padded3(out: &mut String, digits: &str)
    ensures
        final(out)@ == old(out)@ + pad3(digits@),
{
    let n = digits.unicode_len();
    let ghost head = old(out)@;
    let mut k: usize = n;
    while k < 3
        invariant
            n == digits@.len(),
            n <= k <= 3 || (n > 3 && k == n),
            out@ == head + Seq::new((k - n) as nat, |i: int| '0'),
        decreases 3 - k,
    {
        out.append("0");
        proof {
            reveal_strlit("0");
        }
        k += 1;
        assert(out@ =~= head + Seq::new((k - n) as nat, |i: int| '0'));
    }
    let ghost zeros = out@;
    out.append(digits);
    assert(zeros + digits@ =~= head + pad3(digits@));
}

/// The canonical id and the name of the card a deck line names, if any.
pub fn deck_line_card(line: &str) -> (r: Option<(String, String)>)
    ensures
        match r {
            Some((id, name)) => spec_deck_line_card(line@) == Some((id@, name@)),
            None => spec_deck_line_card(line@) is None,
        },
{
    let v = chars_of(line);
    let spans = word_spans_of(&v);
    proof {
        lemma_word_spans_bounds(line@);
    }
    let count = spans.len();
    if count < 3 {
        return None;
    }
    if v.len() >= 7 && crate::text::range_is(&v, 0, 7, "Energy:") {
        assert(v@.subrange(0, 7) =~= line@.take(7));
        return None;
    }
    proof {
        if v@.len() >= 7 {
            assert(v@.subrange(0, 7) =~= line@.take(7));
        }
    }
    let ghost w = words(line@);
    let (a1, b1) = spans[count - 2];
    let (a2, b2) = spans[count - 1];
    assert(w[count - 2] == line@.subrange(a1 as int, b1 as int));
    assert(w[count - 1] == line@.subrange(a2 as int, b2 as int));
    let number = match crate::text::parse_unsigned(&v, a2, b2, u32::MAX as u64) {
        Some(n) => n,
        None => {
            return None;
        },
    };
    let digits = usize_text(number as usize);
    let mut id = String::from_str(line.substring_char(a1, b1));
    id.append(" ");
    append_padded3(&mut id, digits.as_str());
    match find_card_id(id.as_str()) {
        Some(card_id) => {
            let name = get_card_by_enum(card_id).get_name();
            Some((id, name))
        },
        None => None,
    }
}

/// The staple lines that stand in for a template staple the card under test shares a name
/// with.
pub open spec fn substitutes() -> Seq<Seq<char>> {
    seq![
        "2 Potion P-A 1"@,
        "2 X Speed P-A 2"@,
        "2 Hand Scope P-A 3"@,
        "2 Pokédex P-A 4"@,
        "2 Red Card P-A 6"@,
    ]
}

fn substitute_staple(k: usize) -> (r: &'static str)
    requires
        k < 5,
    ensures
        r@ == substitutes()[k as int],
{
    match k {
        0 => "2 Potion P-A 1",
        1 => "2 X Speed P-A 2",
        2 => "2 Hand Scope P-A 3",
        3 => "2 Pokédex P-A 4",
        _ => "2 Red Card P-A 6",
    }
}

/// A substitute line usable for a card named `tested_name` when `names` are in the deck.
pub open spec fn usable_substitute(
    s: Seq<char>,
    tested_name: Seq<char>,
    names: Seq<Seq<char>>,
) -> bool {
    match spec_deck_line_card(s) {
        Some((_, n)) => n != tested_name && !names.contains(n),
        None => false,
    }
}

/// The first usable substitute of `subs`.
pub open spec fn first_substitute(
    subs: Seq<Seq<char>>,
    tested_name: Seq<char>,
    names: Seq<Seq<char>>,
) -> Option<Seq<char>>
    decreases subs.len(),
{
    if subs.len() == 0 {
        None
    } else if usable_substitute(subs[0], tested_name, names) {
        Some(subs[0])
    } else {
        first_substitute(subs.skip(1), tested_name, names)
    }
}

/// One line of the deduplication: a line naming the card under test is kept the first time
/// its id shows up; a later line sharing the card's name is replaced by the first usable
/// substitute, whose name then counts as in the deck. State: the names in the deck, whether the
/// card's own line was seen, the lines so far.
pub open spec fn dedupe_step(
    st: (Seq<Seq<char>>, bool, Seq<Seq<char>>),
    line: Seq<char>,
    tested_id: Seq<char>,
    tested_name: Seq<char>,
) -> (Seq<Seq<char>>, bool, Seq<Seq<char>>) {
    let (names, seen, out) = st;
    match spec_deck_line_card(line) {
        None => (names, seen, out.push(line)),
        Some((id, name)) => if id == tested_id && !seen {
            (names, true, out.push(line))
        } else if name != tested_name {
            (names, seen, out.push(line))
        } else {
            match first_substitute(substitutes(), tested_name, names) {
                Some(sub) => (
                    match spec_deck_line_card(sub) {
                        Some((_, n)) => names.push(n),
                        None => names,
                    },
                    seen,
                    out.push(sub),
                ),
                None => (names, seen, out.push(line)),
            }
        },
    }
}

pub open spec fn dedupe_fold(
    lines: Seq<Seq<char>>,
    init: (Seq<Seq<char>>, bool, Seq<Seq<char>>),
    tested_id: Seq<char>,
    tested_name: Seq<char>,
) -> (Seq<Seq<char>>, bool, Seq<Seq<char>>)
    decreases lines.len(),
{
    if lines.len() == 0 {
        init
    } else {
        dedupe_step(
            dedupe_fold(lines.drop_last(), init, tested_id, tested_name),
            lines.last(),
            tested_id,
            tested_name,
        )
    }
}

/// The names of the cards the lines name, in order.
pub open spec fn recognized_names(lines: Seq<Seq<char>>) -> Seq<Seq<char>>
    decreases lines.len(),
{
    if lines.len() == 0 {
        Seq::empty()
    } else {
        let rest = recognized_names(lines.drop_last());
        match spec_deck_line_card(lines.last()) {
            Some((_, n)) => rest.push(n),
            None => rest,
        }
    }
}

/// The texts of `parts` joined by newlines.
pub open spec fn join_newline(parts: Seq<Seq<char>>) -> Seq<char>
    decreases parts.len(),
{
    if parts.len() == 0 {
        Seq::empty()
    } else if parts.len() == 1 {
        parts[0]
    } else {
        join_newline(parts.drop_last()) + "\n"@ + parts.last()
    }
}

/// A deck text in which every line that shares the tested card's name under another printing
/// (or repeats its id) is replaced by a substitute staple, so no name appears more than twice.
pub open spec fn spec_dedupe(deck: Seq<char>, card: CardView) -> Seq<char> {
    let lines = text_lines(deck);
    let st = dedupe_fold(lines, (recognized_names(lines), false, Seq::empty()), card.id(), card.name());
    join_newline(st.2) + "\n"@
}


/// Whether `n` is among `names`.
fn names_contain(names: &Vec<String>, n: &String) -> (r: bool)
    ensures
        r == crate::puzzles::strings_view(names@).contains(n@),
{
    let ghost v = crate::puzzles::strings_view(names@);
    let mut i: usize = 0;
    while i < names.len()
        invariant
            i <= names@.len(),
            v == crate::puzzles::strings_view(names@),
            forall|j: int| 0 <= j < i ==> v[j] != n@,
        decreases names.len() - i,
    {
        if names[i] == *n {
            assert(v[i as int] == n@);
            return true;
        }
        i += 1;
    }
    false
}

/// The first usable substitute line for a card named `tested_name`.
fn find_substitute(tested_name: &String, names: &Vec<String>) -> (r: Option<&'static str>)
    ensures
        match r {
            Some(sub) => first_substitute(
                substitutes(),
                tested_name@,
                crate::puzzles::strings_view(names@),
            ) == Some(sub@),
            None => first_substitute(
                substitutes(),
                tested_name@,
                crate::puzzles::strings_view(names@),
            ) is None,
        },
{
    let ghost ns = crate::puzzles::strings_view(names@);
    let mut k: usize = 0;
    assert(substitutes().skip(0) =~= substitutes());
    while k < 5
        invariant
            k <= 5,
            ns == crate::puzzles::strings_view(names@),
            first_substitute(substitutes(), tested_name@, ns) == first_substitute(
                substitutes().skip(k as int),
                tested_name@,
                ns,
            ),
        decreases 5 - k,
    {
        let sub = substitute_staple(k);
        let ghost rest = substitutes().skip(k as int);
        assert(rest[0] == substitutes()[k as int]);
        assert(rest.skip(1) =~= substitutes().skip(k + 1));
        let usable = match deck_line_card(sub) {
            Some((_, n)) => !(n == *tested_name) && !names_contain(names, &n),
            None => false,
        };
        if usable {
            return Some(sub);
        }
        k += 1;
    }
    assert(substitutes().skip(5) =~= Seq::<Seq<char>>::empty());
    None
}

/// Replaces every staple line that shares the tested card's name under another printing (or
/// repeats its id) with a substitute staple not already in the deck, so the deck keeps 20 cards
/// and at most two of each name.
pub fn dedupe_staples_by_name(deck: String, card: &Card) -> (r: String)
    ensures
        r@ == spec_dedupe(deck@, card@),
{
    let tested_id = card.get_id();
    let tested_name = card.get_name();
    let lines = split_lines(deck.as_str());
    let ghost lv = crate::puzzles::strings_view(lines@);
    let mut names: Vec<String> = Vec::new();
    let mut i: usize = 0;
    while i < lines.len()
        invariant
            i <= lines@.len(),
            lv == crate::puzzles::strings_view(lines@),
            crate::puzzles::strings_view(names@) == recognized_names(lv.take(i as int)),
        decreases lines.len() - i,
    {
        assert(lv.take(i + 1).drop_last() =~= lv.take(i as int));
        assert(lv.take(i + 1).last() == lines@[i as int]@);
        let ghost before = names@;
        match deck_line_card(lines[i].as_str()) {
            Some((_, n)) => {
                names.push(n);
                assert(crate::puzzles::strings_view(names@) =~= crate::puzzles::strings_view(
                    before,
                ).push(n@));
            },
            None => {},
        }
        i += 1;
    }
    assert(lv.take(lines@.len() as int) =~= lv);
    let ghost init = (recognized_names(lv), false, Seq::<Seq<char>>::empty());
    let mut seen = false;
    let mut out: Vec<String> = Vec::new();
    let mut j: usize = 0;
    while j < lines.len()
        invariant
            j <= lines@.len(),
            lv == crate::puzzles::strings_view(lines@),
            init == (recognized_names(lv), false, Seq::<Seq<char>>::empty()),
            (crate::puzzles::strings_view(names@), seen, crate::puzzles::strings_view(out@))
                == dedupe_fold(lv.take(j as int), init, tested_id@, tested_name@),
        decreases lines.len() - j,
    {
        assert(lv.take(j + 1).drop_last() =~= lv.take(j as int));
        assert(lv.take(j + 1).last() == lines@[j as int]@);
        let ghost out0 = out@;
        let ghost names0 = names@;
        let line = &lines[j];
        let next: String = match deck_line_card(line.as_str()) {
            None => line.clone(),
            Some((id, name)) => {
                if id == tested_id && !seen {
                    seen = true;
                    line.clone()
                } else if !(name == tested_name) {
                    line.clone()
                } else {
                    match find_substitute(&tested_name, &names) {
                        Some(sub) => {
                            match deck_line_card(sub) {
                                Some((_, n)) => {
                                    names.push(n);
                                    assert(crate::puzzles::strings_view(names@)
                                        =~= crate::puzzles::strings_view(names0).push(n@));
                                },
                                None => {},
                            }
                            String::from_str(sub)
                        },
                        None => line.clone(),
                    }
                }
            },
        };
        out.push(next);
        assert(crate::puzzles::strings_view(out@) =~= crate::puzzles::strings_view(out0).push(
            next@,
        ));
        j += 1;
    }
    assert(lv.take(lines@.len() as int) =~= lv);
    let ghost ov = crate::puzzles::strings_view(out@);
    let mut text = String::new();
    let mut k: usize = 0;
    while k < out.len()
        invariant
            k <= out@.len(),
            ov == crate::puzzles::strings_view(out@),
            text@ == join_newline(ov.take(k as int)),
        decreases out.len() - k,
    {
        assert(ov.take(k + 1).drop_last() =~= ov.take(k as int));
        assert(ov.take(k + 1).last() == out@[k as int]@);
        if k > 0 {
            text.append("\n");
        } else {
            assert(text@ =~= Seq::<char>::empty());
        }
        text.append(out[k].as_str());
        proof {
            if k == 0 {
                assert(text@ =~= ov.take(1)[0]);
            }
        }
        k += 1;
    }
    assert(ov.take(out@.len() as int) =~= ov);
    text.append("\n");
    text
}

/// A deck for trying out one card: its evolution line, a Fossil deck or a Trainer template,
/// with staples that share the card's name replaced.
pub open spec fn spec_generate_temp_deck(card: CardView) -> Seq<char> {
    spec_dedupe(spec_temp_deck_unchecked(card), card)
}

/// Generates a temporary deck for trying out a card.
pub fn generate_temp_deck(card: &Card) -> (r: String)
    ensures
        r@ == spec_generate_temp_deck(card@),
{
    let deck = generate_temp_deck_unchecked(card);
    dedupe_staples_by_name(deck, card)
}


/// A line holds no line break and no carriage return.
pub open spec fn single_line(l: Seq<char>) -> bool {
    forall|i: int| 0 <= i < l.len() ==> #[trigger] l[i] != '\n' && l[i] != '\r'
}

/// The decimal digits a line starts with.
pub open spec fn leading_digits(l: Seq<char>) -> Seq<char>
    decreases l.len(),
{
    if l.len() > 0 && is_digit(l[0]) {
        seq![l[0]] + leading_digits(l.drop_first())
    } else {
        Seq::empty()
    }
}

/// The number of cards a deck line stands for: the number it starts with (none for the
/// Energy line).
pub open spec fn line_count(l: Seq<char>) -> int {
    decimal_value(leading_digits(l))
}

/// The number of cards a list of deck lines stands for.
pub open spec fn count_sum(ls: Seq<Seq<char>>) -> int
    decreases ls.len(),
{
    if ls.len() == 0 {
        0
    } else {
        count_sum(ls.drop_last()) + line_count(ls.last())
    }
}

proof fn lemma_count_sum_concat(a: Seq<Seq<char>>, b: Seq<Seq<char>>)
    ensures
        count_sum(a + b) == count_sum(a) + count_sum(b),
    decreases b.len(),
{
    if b.len() == 0 {
        assert(a + b =~= a);
    } else {
        lemma_count_sum_concat(a, b.drop_last());
        assert((a + b).drop_last() =~= a + b.drop_last());
        assert((a + b).last() == b.last());
    }
}

proof fn lemma_lines_text_concat(a: Seq<Seq<char>>, b: Seq<Seq<char>>)
    ensures
        lines_text(a + b) == lines_text(a) + lines_text(b),
    decreases b.len(),
{
    if b.len() == 0 {
        assert(a + b =~= a);
        assert(lines_text(a) + lines_text(b) =~= lines_text(a));
    } else {
        lemma_lines_text_concat(a, b.drop_last());
        assert((a + b).drop_last() =~= a + b.drop_last());
        assert((a + b).last() == b.last());
        assert(lines_text(a) + (lines_text(b.drop_last()) + b.last() + "\n"@) =~= (lines_text(a)
            + lines_text(b.drop_last())) + b.last() + "\n"@);
    }
}

proof fn lemma_pieces_nonempty(s: Seq<char>)
    ensures
        pieces(s).len() >= 1,
    decreases s.len(),
{
    if s.len() > 0 {
        lemma_pieces_nonempty(s.drop_last());
    }
}

proof fn lemma_pieces_extend(s: Seq<char>, t: Seq<char>)
    requires
        single_line(t),
    ensures
        pieces(s + t) == pieces(s).update(pieces(s).len() - 1, pieces(s).last() + t),
    decreases t.len(),
{
    lemma_pieces_nonempty(s);
    if t.len() == 0 {
        assert(s + t =~= s);
        assert(pieces(s).last() + t =~= pieces(s).last());
        assert(pieces(s).update(pieces(s).len() - 1, pieces(s).last()) =~= pieces(s));
    } else {
        let t1 = t.drop_last();
        assert(single_line(t1));
        lemma_pieces_extend(s, t1);
        assert((s + t).drop_last() =~= s + t1);
        assert((s + t).last() == t.last());
        assert(t.last() != '\n');
        let p1 = pieces(s + t1);
        lemma_pieces_nonempty(s + t1);
        assert(p1.last() == pieces(s).last() + t1);
        assert((pieces(s).last() + t1).push(t.last()) =~= pieces(s).last() + t);
        assert(p1.update(p1.len() - 1, p1.last().push(t.last())) =~= pieces(s).update(
            pieces(s).len() - 1,
            pieces(s).last() + t,
        ));
    }
}

proof fn lemma_pieces_of_lines(ls: Seq<Seq<char>>)
    requires
        forall|i: int| 0 <= i < ls.len() ==> single_line(#[trigger] ls[i]),
    ensures
        pieces(lines_text(ls)) == ls.push(Seq::<char>::empty()),
    decreases ls.len(),
{
    reveal_strlit("\n");
    if ls.len() == 0 {
        assert(pieces(Seq::<char>::empty()) =~= seq![Seq::<char>::empty()]);
        assert(ls.push(Seq::<char>::empty()) =~= seq![Seq::<char>::empty()]);
    } else {
        let a = ls.drop_last();
        let l = ls.last();
        assert forall|i: int| 0 <= i < a.len() implies single_line(#[trigger] a[i]) by {
            assert(a[i] == ls[i]);
        }
        lemma_pieces_of_lines(a);
        assert(single_line(ls[ls.len() - 1]));
        let x = lines_text(a);
        lemma_pieces_extend(x, l);
        let y = x + l;
        assert(lines_text(ls) == y + "\n"@);
        assert((y + "\n"@).drop_last() =~= y);
        assert((y + "\n"@).last() == '\n');
        assert(pieces(x).last() == Seq::<char>::empty());
        assert(Seq::<char>::empty() + l =~= l);
        assert(pieces(y + "\n"@) == pieces(y).push(Seq::<char>::empty()));
        assert(pieces(y) =~= ls);
    }
}

/// The lines of a text made of single lines, each ended by a newline, are those lines.
proof fn lemma_text_lines_of_lines(ls: Seq<Seq<char>>)
    requires
        forall|i: int| 0 <= i < ls.len() ==> single_line(#[trigger] ls[i]),
    ensures
        text_lines(lines_text(ls)) == ls,
{
    lemma_pieces_of_lines(ls);
    let p = ls.push(Seq::<char>::empty());
    assert(p.drop_last() =~= ls);
    assert forall|i: int| 0 <= i < ls.len() implies strip_cr(#[trigger] ls[i]) == ls[i] by {
        assert(single_line(ls[i]));
        if ls[i].len() > 0 {
            assert(ls[i][ls[i].len() - 1] != '\r');
        }
    }
    assert(ls.map_values(|l: Seq<char>| strip_cr(l)) =~= ls);
}


proof fn lemma_deck_line(l: Seq<char>)
    requires
        l.len() >= 2,
        is_digit(l[0]),
        l[1] == ' ',
        forall|i: int| 0 <= i < l.len() ==> l[i] != '\n' && l[i] != '\r',
    ensures
        single_line(l),
        line_count(l) == digit_value(l[0]),
{
    assert(leading_digits(l.drop_first()) == Seq::<char>::empty());
    assert(leading_digits(l) =~= seq![l[0]]);
    let d = seq![l[0]];
    assert(d.drop_last() =~= Seq::<char>::empty());
    assert(d.last() == l[0]);
    assert(decimal_value(Seq::<char>::empty()) == 0);
    assert(decimal_value(d) == decimal_value(d.drop_last()) * 10 + digit_value(d.last()));
}

/// The lines of the Trainers every evolution-line deck holds.
pub open spec fn staple_lines() -> Seq<Seq<char>> {
    seq!["2 Giovanni A1 223"@, "2 Poké Ball A2b 111"@, "2 Professor's Research A4b 373"@, "2 Copycat B1 270"@, "2 Giant Cape A2 147"@]
}

/// The lines of the Trainers that fill the deck up after `num` Pokémon lines.
pub open spec fn filler_lines(num: nat) -> Seq<Seq<char>> {
    if num == 4 {
        seq!["1 Sabrina A1 225"@, "1 Cyrus A2 150"@]
    } else if num == 3 {
        seq!["2 Sabrina A1 225"@, "2 Cyrus A2 150"@]
    } else if num == 2 {
        seq!["2 Sabrina A1 225"@, "2 Cyrus A2 150"@, "2 Potion P-A 1"@]
    } else {
        seq!["2 Sabrina A1 225"@, "2 Cyrus A2 150"@, "2 Potion P-A 1"@, "2 X Speed P-A 2"@]
    }
}

/// The Trainer texts are those lines, each a single line, counting 10 cards for the staples
/// and `20 - 10 - 2 * num` for the filler.
proof fn lemma_trainer_lines(num: nat)
    requires
        1 <= num <= 4,
    ensures
        staple_text() == lines_text(staple_lines()),
        filler_text(num) == lines_text(filler_lines(num)),
        forall|i: int| 0 <= i < staple_lines().len() ==> single_line(#[trigger] staple_lines()[i]),
        forall|i: int| 0 <= i < filler_lines(num).len() ==> single_line(
            #[trigger] filler_lines(num)[i],
        ),
        count_sum(staple_lines()) == 10,
        count_sum(filler_lines(num)) == 10 - 2 * num,
{
    reveal_strlit("\n");
    reveal_strlit("1 Cyrus A2 150");
    reveal_strlit("1 Cyrus A2 150\n");
    lemma_deck_line("1 Cyrus A2 150"@);
    assert("1 Cyrus A2 150\n"@ =~= "1 Cyrus A2 150"@ + "\n"@);
    reveal_strlit("1 Sabrina A1 225");
    reveal_strlit("1 Sabrina A1 225\n");
    lemma_deck_line("1 Sabrina A1 225"@);
    assert("1 Sabrina A1 225\n"@ =~= "1 Sabrina A1 225"@ + "\n"@);
    reveal_strlit("2 Copycat B1 270");
    reveal_strlit("2 Copycat B1 270\n");
    lemma_deck_line("2 Copycat B1 270"@);
    assert("2 Copycat B1 270\n"@ =~= "2 Copycat B1 270"@ + "\n"@);
    reveal_strlit("2 Cyrus A2 150");
    reveal_strlit("2 Cyrus A2 150\n");
    lemma_deck_line("2 Cyrus A2 150"@);
    assert("2 Cyrus A2 150\n"@ =~= "2 Cyrus A2 150"@ + "\n"@);
    reveal_strlit("2 Giant Cape A2 147");
    reveal_strlit("2 Giant Cape A2 147\n");
    lemma_deck_line("2 Giant Cape A2 147"@);
    assert("2 Giant Cape A2 147\n"@ =~= "2 Giant Cape A2 147"@ + "\n"@);
    reveal_strlit("2 Giovanni A1 223");
    reveal_strlit("2 Giovanni A1 223\n");
    lemma_deck_line("2 Giovanni A1 223"@);
    assert("2 Giovanni A1 223\n"@ =~= "2 Giovanni A1 223"@ + "\n"@);
    reveal_strlit("2 Poké Ball A2b 111");
    reveal_strlit("2 Poké Ball A2b 111\n");
    lemma_deck_line("2 Poké Ball A2b 111"@);
    assert("2 Poké Ball A2b 111\n"@ =~= "2 Poké Ball A2b 111"@ + "\n"@);
    reveal_strlit("2 Potion P-A 1");
    reveal_strlit("2 Potion P-A 1\n");
    lemma_deck_line("2 Potion P-A 1"@);
    assert("2 Potion P-A 1\n"@ =~= "2 Potion P-A 1"@ + "\n"@);
    reveal_strlit("2 Professor's Research A4b 373");
    reveal_strlit("2 Professor's Research A4b 373\n");
    lemma_deck_line("2 Professor's Research A4b 373"@);
    assert("2 Professor's Research A4b 373\n"@ =~= "2 Professor's Research A4b 373"@ + "\n"@);
    reveal_strlit("2 Sabrina A1 225");
    reveal_strlit("2 Sabrina A1 225\n");
    lemma_deck_line("2 Sabrina A1 225"@);
    assert("2 Sabrina A1 225\n"@ =~= "2 Sabrina A1 225"@ + "\n"@);
    reveal_strlit("2 X Speed P-A 2");
    reveal_strlit("2 X Speed P-A 2\n");
    lemma_deck_line("2 X Speed P-A 2"@);
    assert("2 X Speed P-A 2\n"@ =~= "2 X Speed P-A 2"@ + "\n"@);
    reveal_with_fuel(lines_text, 6);
    reveal_with_fuel(count_sum, 6);
    assert(staple_text() =~= lines_text(staple_lines()));
    assert(filler_text(num) =~= lines_text(filler_lines(num)));
}


proof fn lemma_single_concat(a: Seq<char>, b: Seq<char>)
    requires
        single_line(a),
        single_line(b),
    ensures
        single_line(a + b),
{
    assert forall|i: int| 0 <= i < (a + b).len() implies #[trigger] (a + b)[i] != '\n' && (a
        + b)[i] != '\r' by {
        if i < a.len() {
            assert((a + b)[i] == a[i]);
        } else {
            assert((a + b)[i] == b[i - a.len()]);
        }
    }
}

proof fn lemma_decimal_text_digits(n: nat)
    ensures
        single_line(decimal_text(n)),
        decimal_text(n).len() >= 1,
    decreases n,
{
    if n < 10 {
        assert(single_line(seq![digit_char(n as int)]));
    } else {
        lemma_decimal_text_digits(n / 10);
        let d = decimal_text(n / 10);
        let c = digit_char((n % 10) as int);
        assert forall|i: int| 0 <= i < d.push(c).len() implies #[trigger] d.push(c)[i] != '\n'
            && d.push(c)[i] != '\r' by {
            if i < d.len() {
                assert(d.push(c)[i] == d[i]);
            }
        }
    }
}

proof fn lemma_words_single(s: Seq<char>)
    requires
        single_line(s),
    ensures
        forall|k: int| 0 <= k < words(s).len() ==> single_line(#[trigger] words(s)[k]),
{
    lemma_word_spans_bounds(s);
    assert forall|k: int| 0 <= k < words(s).len() implies single_line(#[trigger] words(s)[k]) by {
        let sp = word_spans(s)[k];
        let w = s.subrange(sp.0, sp.1);
        assert(words(s)[k] == w);
        assert forall|i: int| 0 <= i < w.len() implies #[trigger] w[i] != '\n' && w[i] != '\r' by {
            assert(w[i] == s[sp.0 + i]);
        }
    }
}

/// A deck line of two copies of a card whose name and id are single lines is a single line
/// counting 2 cards.
proof fn lemma_card_line(c: CardView)
    requires
        single_line(c.name()),
        single_line(c.id()),
    ensures
        single_line(card_line(c, 2)),
        line_count(card_line(c, 2)) == 2,
{
    reveal_strlit(" ");
    lemma_decimal_text_digits(2);
    assert(decimal_text(2) == seq!['2']);
    let id = spec_format_card_id(c.id());
    let w = words(c.id());
    if w.len() == 2 {
        lemma_words_single(c.id());
        assert(single_line(w[0]));
        let n: nat = if parses_unsigned(w[1], u32::MAX as int) {
            unsigned_value(w[1]) as nat
        } else {
            0
        };
        lemma_decimal_text_digits(n);
        assert(single_line(" "@));
        lemma_single_concat(w[0], " "@);
        lemma_single_concat(w[0] + " "@, decimal_text(n));
        assert(id == w[0] + " "@ + decimal_text(n));
    }
    assert(single_line(id));
    assert(single_line(" "@));
    let l = decimal_text(2) + " "@ + c.name() + " "@ + id;
    lemma_single_concat(decimal_text(2), " "@);
    lemma_single_concat(decimal_text(2) + " "@, c.name());
    lemma_single_concat(decimal_text(2) + " "@ + c.name(), " "@);
    lemma_single_concat(decimal_text(2) + " "@ + c.name() + " "@, id);
    assert(l[0] == '2');
    assert(l[1] == ' ');
    lemma_deck_line(l);
}

proof fn lemma_join_comma_single(parts: Seq<Seq<char>>)
    requires
        forall|i: int| 0 <= i < parts.len() ==> single_line(#[trigger] parts[i]),
    ensures
        single_line(join_comma(parts)),
    decreases parts.len(),
{
    reveal_strlit(", ");
    if parts.len() == 1 {
        assert(single_line(parts[0]));
    } else if parts.len() > 1 {
        let a = parts.drop_last();
        assert forall|i: int| 0 <= i < a.len() implies single_line(#[trigger] a[i]) by {
            assert(a[i] == parts[i]);
        }
        lemma_join_comma_single(a);
        assert(single_line(", "@));
        assert(single_line(parts[parts.len() - 1]));
        lemma_single_concat(join_comma(a), ", "@);
        lemma_single_concat(join_comma(a) + ", "@, parts.last());
    }
}

proof fn lemma_energy_names_single()
    ensures
        forall|t: EnergyType| single_line(#[trigger] energy_name(t)),
{
    reveal_strlit("Grass");
    reveal_strlit("Fire");
    reveal_strlit("Water");
    reveal_strlit("Lightning");
    reveal_strlit("Psychic");
    reveal_strlit("Fighting");
    reveal_strlit("Darkness");
    reveal_strlit("Metal");
    reveal_strlit("Dragon");
    reveal_strlit("Colorless");
    assert forall|t: EnergyType| single_line(#[trigger] energy_name(t)) by {
        match t {
            EnergyType::Grass => {},
            EnergyType::Fire => {},
            EnergyType::Water => {},
            EnergyType::Lightning => {},
            EnergyType::Psychic => {},
            EnergyType::Fighting => {},
            EnergyType::Darkness => {},
            EnergyType::Metal => {},
            EnergyType::Dragon => {},
            EnergyType::Colorless => {},
        }
    }
}

/// The Energy line of a deck is a single line that stands for no card.
proof fn lemma_energy_line(cards: Seq<CardView>, fallback: EnergyType)
    ensures
        single_line("Energy: "@ + energy_line_text(cards, fallback)),
        line_count("Energy: "@ + energy_line_text(cards, fallback)) == 0,
{
    reveal_strlit("Energy: ");
    lemma_energy_names_single();
    let types = deck_energy_types(cards);
    let names = types.map_values(|t: EnergyType| energy_name(t));
    assert forall|i: int| 0 <= i < names.len() implies single_line(#[trigger] names[i]) by {
        assert(names[i] == energy_name(types[i]));
    }
    lemma_join_comma_single(names);
    let e = energy_line_text(cards, fallback);
    assert(single_line(e));
    assert(single_line("Energy: "@));
    lemma_single_concat("Energy: "@, e);
    let l = "Energy: "@ + e;
    assert(l[0] == 'E');
    assert(leading_digits(l) == Seq::<char>::empty());
}


proof fn lemma_pair_lines(ls: Seq<Seq<char>>)
    requires
        forall|i: int| 0 <= i < ls.len() ==> line_count(#[trigger] ls[i]) == 2,
    ensures
        count_sum(ls) == 2 * ls.len(),
    decreases ls.len(),
{
    if ls.len() > 0 {
        let a = ls.drop_last();
        assert forall|i: int| 0 <= i < a.len() implies line_count(#[trigger] a[i]) == 2 by {
            assert(a[i] == ls[i]);
        }
        lemma_pair_lines(a);
        assert(line_count(ls[ls.len() - 1]) == 2);
    }
}

/// A card whose name and id are each a single line.
pub open spec fn printable(c: CardView) -> bool {
    single_line(c.name()) && single_line(c.id())
}

/// Every evolution-line deck holds exactly 20 cards: the counts its lines start with add up to
/// 20 (the Energy line counts none), whatever the cards of the line, as long as the line holds
/// at most three Pokémon, each printable on one line.
pub proof fn law_evolution_line_decks_hold_twenty_cards(
    line: Seq<Option<CardView>>,
    fallback: EnergyType,
)
    requires
        line_cards(line).len() <= 3,
        forall|i: int| 0 <= i < line_cards(line).len() ==> printable(#[trigger] line_cards(line)[i]),
    ensures
        count_sum(text_lines(evolution_line_deck(line, fallback))) == 20,
{
    let cards = line_cards(line);
    let d = deck_lines(cards);
    let own = cards.map_values(|c: CardView| card_line(c, 2));
    reveal_strlit("Meowth");
    reveal_strlit("A1 196");
    let meowth = spec_card_by_enum(CardId::A1196Meowth);
    assert(single_line(meowth.name()));
    assert(single_line(meowth.id()));
    lemma_card_line(meowth);
    assert forall|i: int| 0 <= i < own.len() implies single_line(#[trigger] own[i]) && line_count(
        own[i],
    ) == 2 by {
        assert(printable(cards[i]));
        lemma_card_line(cards[i]);
    }
    assert forall|i: int| 0 <= i < d.len() implies single_line(#[trigger] d[i]) && line_count(d[i])
        == 2 by {
        if i < own.len() {
            assert(d[i] == own[i]);
        }
    }
    assert(1 <= d.len() <= 4) by {
        if cards.len() == 0 {
            assert(!has_basic(cards));
        }
    }
    lemma_pair_lines(d);
    lemma_trainer_lines(d.len());
    lemma_energy_line(cards, fallback);
    let e = "Energy: "@ + energy_line_text(cards, fallback);
    let all = seq![e] + d + staple_lines() + filler_lines(d.len());
    assert forall|i: int| 0 <= i < all.len() implies single_line(#[trigger] all[i]) by {
        let n1 = 1 + d.len();
        let n2 = n1 + staple_lines().len();
        if i == 0 {
        } else if i < n1 {
            assert(all[i] == d[i - 1]);
        } else if i < n2 {
            assert(all[i] == staple_lines()[i - n1]);
        } else {
            assert(all[i] == filler_lines(d.len())[i - n2]);
        }
    }
    lemma_lines_text_concat(seq![e], d);
    lemma_lines_text_concat(seq![e] + d, staple_lines());
    lemma_lines_text_concat(seq![e] + d + staple_lines(), filler_lines(d.len()));
    assert(seq![e].drop_last() =~= Seq::<Seq<char>>::empty());
    assert(seq![e].last() == e);
    assert(lines_text(Seq::<Seq<char>>::empty()) == Seq::<char>::empty());
    assert(count_sum(Seq::<Seq<char>>::empty()) == 0);
    assert(lines_text(seq![e]) =~= e + "\n"@);
    assert(evolution_line_deck(line, fallback) =~= lines_text(all));
    lemma_text_lines_of_lines(all);
    lemma_count_sum_concat(seq![e], d);
    lemma_count_sum_concat(seq![e] + d, staple_lines());
    lemma_count_sum_concat(seq![e] + d + staple_lines(), filler_lines(d.len()));
    assert(count_sum(seq![e]) == 0);
}


proof fn lemma_line_cards_bound(line: Seq<Option<CardView>>)
    ensures
        line_cards(line).len() <= line.len(),
        forall|i: int|
            0 <= i < line_cards(line).len() ==> exists|j: int|
                0 <= j < line.len() && line[j] == Some(#[trigger] line_cards(line)[i]),
    decreases line.len(),
{
    if line.len() > 0 {
        lemma_line_cards_bound(line.drop_last());
        let rest = line_cards(line.drop_last());
        assert forall|i: int| 0 <= i < line_cards(line).len() implies exists|j: int|
            0 <= j < line.len() && line[j] == Some(#[trigger] line_cards(line)[i]) by {
            if i < rest.len() {
                let j = choose|j: int| 0 <= j < line.len() - 1 && line.drop_last()[j] == Some(rest[i]);
                assert(line[j] == line.drop_last()[j]);
                assert(line_cards(line)[i] == rest[i]);
            } else {
                assert(line[line.len() - 1] == Some(line_cards(line)[i]));
            }
        }
    }
}

/// The temporary deck built around a Pokémon, before staples sharing its name are swapped out,
/// holds exactly 20 cards, as long as every card of its evolution line prints on one line.
pub proof fn law_pokemon_temp_decks_hold_twenty_cards(card: CardView)
    requires
        card is Pokemon,
        ({
            let l = spec_evolution_line(card);
            &&& l.0 matches Some(c) ==> printable(c)
            &&& l.1 matches Some(c) ==> printable(c)
            &&& l.2 matches Some(c) ==> printable(c)
        }),
    ensures
        count_sum(text_lines(spec_temp_deck_unchecked(card))) == 20,
{
    let l = spec_evolution_line(card);
    let line = seq![l.0, l.1, l.2];
    lemma_line_cards_bound(line);
    assert forall|i: int| 0 <= i < line_cards(line).len() implies printable(
        #[trigger] line_cards(line)[i],
    ) by {
        let j = choose|j: int| 0 <= j < line.len() && line[j] == Some(line_cards(line)[i]);
        if j == 0 {
        } else if j == 1 {
        } else {
        }
    }
    let p = card->Pokemon_0;
    let fb = if p.energy_type == EnergyType::Colorless || p.energy_type == EnergyType::Dragon {
        EnergyType::Water
    } else {
        p.energy_type
    };
    law_evolution_line_decks_hold_twenty_cards(line, fb);
}

} // verus!
