//! No two built-in instruments share a name.

use crate::factory;
use crate::factory::{classic, percussion, plucked_set, showcase, strings, winds, RecipeView};
use crate::models::ModelKind;
use crate::single::Single;
use vstd::prelude::*;

verus! {

/// Where the built-in instrument of a given name stands: three of its characters tell it
/// from all the others.
#[verifier::opaque]
spec fn place(name: Seq<char>) -> int {
    let n = name.len() as int;
    match (name[0], name[n / 2], name[2 * n / 3]) {
        ('A', 'i', ' ') => 0,
        ('E', 'i', ' ') => 1,
        ('A', 'c', 'u') => 2,
        ('E', 'c', 'u') => 3,
        ('P', 'a', 'n') => 4,
        ('B', 'n', 'j') => 5,
        ('H', 'r', 'r') => 6,
        ('A', 'B', 's') => 7,
        ('E', 'B', 's') => 8,
        ('A', 'u', 'r') => 9,
        ('E', 'u', 'r') => 10,
        ('B', ' ', 'F') => 11,
        ('H', '(', 'F') => 12,
        ('G', 'o', '(') => 13,
        ('S', 'p', ' ') => 14,
        ('A', '+', 'd') => 15,
        ('P', 'a', '(') => 16,
        ('B', 'a', '(') => 17,
        ('N', 'd', '(') => 18,
        ('T', 'l', '(') => 19,
        ('C', ' ', 'r') => 20,
        ('C', '(', 'r') => 21,
        ('S', 'N', 'y') => 22,
        ('G', ' ', 'l') => 23,
        ('T', 'o', 'm') => 24,
        ('K', 'c', 'c') => 25,
        ('T', 'p', 'a') => 26,
        ('C', 'b', 'e') => 27,
        ('S', 'a', 'r') => 28,
        ('C', 'C', 'm') => 29,
        ('R', 'C', 'm') => 30,
        ('P', 'P', 'l') => 31,
        ('P', ' ', 'G') => 32,
        ('T', 'l', ' ') => 33,
        ('S', 'L', 'e') => 34,
        ('B', 's', ' ') => 35,
        ('B', 't', ' ') => 36,
        ('B', 'o', 'G') => 37,
        ('B', 'u', 'i') => 38,
        ('B', 'c', 'i') => 39,
        ('B', ' ', 'H') => 40,
        ('B', ' ', 'a') => 41,
        ('B', ' ', 'i') => 42,
        ('B', 'r', 'i') => 43,
        ('B', 'a', 'i') => 44,
        ('B', 'i', 'b') => 45,
        ('B', 'a', ' ') => 46,
        ('V', 'l', 'i') => 47,
        ('V', 'o', 'l') => 48,
        ('C', 'l', 'l') => 49,
        ('D', 'e', 'B') => 50,
        ('H', '-', 'u') => 51,
        ('B', 'c', ' ') => 52,
        ('B', ' ', 'K') => 53,
        ('B', ':', 'T') => 54,
        ('B', 'T', 'm') => 55,
        ('B', ' ', 'n') => 56,
        ('B', 'C', 'w') => 57,
        ('B', 's', 'C') => 58,
        ('B', 'd', 'C') => 59,
        ('B', ' ', 'G') => 60,
        ('W', ' ', 'a') => 61,
        ('W', 'l', 'r') => 62,
        ('W', 's', 't') => 63,
        ('W', 's', 'l') => 64,
        ('W', 'b', ' ') => 65,
        ('W', 'p', 'n') => 66,
        ('W', 'l', 'o') => 67,
        ('W', 'e', 'r') => 68,
        ('W', 'i', 'n') => 69,
        ('W', 'a', 's') => 70,
        ('W', ' ', 'O') => 71,
        ('W', 'r', 'n') => 72,
        ('W', 'B', 's') => 73,
        ('W', 't', 'b') => 74,
        ('W', 'T', 'u') => 75,
        ('W', 'u', 'e') => 76,
        ('W', 'r', 'm') => 77,
        ('W', 'e', 'h') => 78,
        ('W', ' ', 'T') => 79,
        ('W', 'P', 'c') => 80,
        ('W', ' ', 'l') => 81,
        ('W', 't', ' ') => 82,
        ('W', 's', ' ') => 83,
        _ => -1,
    }
}

/// Settings of this model also come in a rendering through the voice graph, unless they
/// are those of a bowed string.
pub open spec fn gets_twin(k: ModelKind) -> bool {
    k is PureString || k is DrumMembrane || k is MusicalString || k is PurePlate
}

/// Each of these instruments is found at its place, the first one at `at`, and the name
/// of its twin nowhere.
spec fn in_place(r: Seq<RecipeView>, at: int) -> bool {
    forall|i: int|
        0 <= i < r.len() ==> place((#[trigger] r[i]).name) == at + i && (gets_twin(
            r[i].patch.kind(),
        ) ==> place(r[i].name + " (graph)"@) == -1)
}

proof fn lemma_plucked_set_first_names()
    ensures
        place("Acoustic Bass"@) == 0,
        place("Electric Bass"@) == 1,
        place("Acoustic Guitar"@) == 2,
        place("Electric Guitar"@) == 3,
        place("Piano"@) == 4,
        place("Piano"@ + " (graph)"@) == -1,
        place("Banjo"@) == 5,
        place("Harp"@) == 6,
{
    assert(place("Acoustic Bass"@) == 0) by {
        reveal(place);
        reveal_strlit("Acoustic Bass");
    }
    assert(place("Electric Bass"@) == 1) by {
        reveal(place);
        reveal_strlit("Electric Bass");
    }
    assert(place("Acoustic Guitar"@) == 2) by {
        reveal(place);
        reveal_strlit("Acoustic Guitar");
    }
    assert(place("Electric Guitar"@) == 3) by {
        reveal(place);
        reveal_strlit("Electric Guitar");
    }
    assert(place("Piano"@) == 4) by {
        reveal(place);
        reveal_strlit("Piano");
    }
    assert(place("Piano"@ + " (graph)"@) == -1) by {
        reveal(place);
        reveal_strlit("Piano");
        reveal_strlit(" (graph)");
    }
    assert(place("Banjo"@) == 5) by {
        reveal(place);
        reveal_strlit("Banjo");
    }
    assert(place("Harp"@) == 6) by {
        reveal(place);
        reveal_strlit("Harp");
    }
}

proof fn lemma_plucked_set_first()
    ensures
        plucked_set::plucked_set_first_view().len() == 7,
        in_place(plucked_set::plucked_set_first_view(), 0),
{
    lemma_plucked_set_first_names();
}

proof fn lemma_plucked_set_second_names()
    ensures
        place("Acoustic Bass (FTM)"@) == 7,
        place("Acoustic Bass (FTM)"@ + " (graph)"@) == -1,
        place("Electric Bass (FTM)"@) == 8,
        place("Electric Bass (FTM)"@ + " (graph)"@) == -1,
        place("Acoustic Guitar (FTM)"@) == 9,
        place("Acoustic Guitar (FTM)"@ + " (graph)"@) == -1,
        place("Electric Guitar (FTM)"@) == 10,
        place("Electric Guitar (FTM)"@ + " (graph)"@) == -1,
        place("Banjo (FTM)"@) == 11,
        place("Banjo (FTM)"@ + " (graph)"@) == -1,
        place("Harp (FTM)"@) == 12,
        place("Harp (FTM)"@ + " (graph)"@) == -1,
{
    assert(place("Acoustic Bass (FTM)"@) == 7) by {
        reveal(place);
        reveal_strlit("Acoustic Bass (FTM)");
    }
    assert(place("Acoustic Bass (FTM)"@ + " (graph)"@) == -1) by {
        reveal(place);
        reveal_strlit("Acoustic Bass (FTM)");
        reveal_strlit(" (graph)");
    }
    assert(place("Electric Bass (FTM)"@) == 8) by {
        reveal(place);
        reveal_strlit("Electric Bass (FTM)");
    }
    assert(place("Electric Bass (FTM)"@ + " (graph)"@) == -1) by {
        reveal(place);
        reveal_strlit("Electric Bass (FTM)");
        reveal_strlit(" (graph)");
    }
    assert(place("Acoustic Guitar (FTM)"@) == 9) by {
        reveal(place);
        reveal_strlit("Acoustic Guitar (FTM)");
    }
    assert(place("Acoustic Guitar (FTM)"@ + " (graph)"@) == -1) by {
        reveal(place);
        reveal_strlit("Acoustic Guitar (FTM)");
        reveal_strlit(" (graph)");
    }
    assert(place("Electric Guitar (FTM)"@) == 10) by {
        reveal(place);
        reveal_strlit("Electric Guitar (FTM)");
    }
    assert(place("Electric Guitar (FTM)"@ + " (graph)"@) == -1) by {
        reveal(place);
        reveal_strlit("Electric Guitar (FTM)");
        reveal_strlit(" (graph)");
    }
    assert(place("Banjo (FTM)"@) == 11) by {
        reveal(place);
        reveal_strlit("Banjo (FTM)");
    }
    assert(place("Banjo (FTM)"@ + " (graph)"@) == -1) by {
        reveal(place);
        reveal_strlit("Banjo (FTM)");
        reveal_strlit(" (graph)");
    }
    assert(place("Harp (FTM)"@) == 12) by {
        reveal(place);
        reveal_strlit("Harp (FTM)");
    }
    assert(place("Harp (FTM)"@ + " (graph)"@) == -1) by {
        reveal(place);
        reveal_strlit("Harp (FTM)");
        reveal_strlit(" (graph)");
    }
}

proof fn lemma_plucked_set_second()
    ensures
        plucked_set::plucked_set_second_view().len() == 6,
        in_place(plucked_set::plucked_set_second_view(), 7),
{
    lemma_plucked_set_second_names();
}

proof fn lemma_showcase_first()
    ensures
        showcase::showcase_first_view().len() == 4,
        in_place(showcase::showcase_first_view(), 13),
{
    assert(place("Guitar + Body (graph)"@) == 13) by {
        reveal(place);
        reveal_strlit("Guitar + Body (graph)");
    }
    assert(place("Snare (coupled graph)"@) == 14) by {
        reveal(place);
        reveal_strlit("Snare (coupled graph)");
    }
    assert(place("Acoustic Bass + Body (graph)"@) == 15) by {
        reveal(place);
        reveal_strlit("Acoustic Bass + Body (graph)");
    }
    assert(place("Piano + Board (graph)"@) == 16) by {
        reveal(place);
        reveal_strlit("Piano + Board (graph)");
    }
}

proof fn lemma_showcase_second()
    ensures
        showcase::showcase_second_view().len() == 4,
        in_place(showcase::showcase_second_view(), 17),
{
    assert(place("Banjo + Head (graph)"@) == 17) by {
        reveal(place);
        reveal_strlit("Banjo + Head (graph)");
    }
    assert(place("Nylon + Body (graph)"@) == 18) by {
        reveal(place);
        reveal_strlit("Nylon + Body (graph)");
    }
    assert(place("Tom + Shell (graph)"@) == 19) by {
        reveal(place);
        reveal_strlit("Tom + Shell (graph)");
    }
    assert(place("Cowbell (graph)"@) == 20) by {
        reveal(place);
        reveal_strlit("Cowbell (graph)");
    }
}

proof fn lemma_showcase_third()
    ensures
        showcase::showcase_third_view().len() == 1,
        in_place(showcase::showcase_third_view(), 21),
{
    assert(place("Crash (graph)"@) == 21) by {
        reveal(place);
        reveal_strlit("Crash (graph)");
    }
}

proof fn lemma_classic_first_names()
    ensures
        place("Soft Nylon"@) == 22,
        place("Soft Nylon"@ + " (graph)"@) == -1,
        place("Glass Pluck"@) == 23,
        place("Glass Pluck"@ + " (graph)"@) == -1,
        place("Tom"@) == 24,
        place("Tom"@ + " (graph)"@) == -1,
        place("Kick"@) == 25,
        place("Kick"@ + " (graph)"@) == -1,
        place("Timpani"@) == 26,
        place("Timpani"@ + " (graph)"@) == -1,
        place("Cowbell"@) == 27,
        place("Snare"@) == 28,
        place("Crash Cymbal"@) == 29,
{
    assert(place("Soft Nylon"@) == 22) by {
        reveal(place);
        reveal_strlit("Soft Nylon");
    }
    assert(place("Soft Nylon"@ + " (graph)"@) == -1) by {
        reveal(place);
        reveal_strlit("Soft Nylon");
        reveal_strlit(" (graph)");
    }
    assert(place("Glass Pluck"@) == 23) by {
        reveal(place);
        reveal_strlit("Glass Pluck");
    }
    assert(place("Glass Pluck"@ + " (graph)"@) == -1) by {
        reveal(place);
        reveal_strlit("Glass Pluck");
        reveal_strlit(" (graph)");
    }
    assert(place("Tom"@) == 24) by {
        reveal(place);
        reveal_strlit("Tom");
    }
    assert(place("Tom"@ + " (graph)"@) == -1) by {
        reveal(place);
        reveal_strlit("Tom");
        reveal_strlit(" (graph)");
    }
    assert(place("Kick"@) == 25) by {
        reveal(place);
        reveal_strlit("Kick");
    }
    assert(place("Kick"@ + " (graph)"@) == -1) by {
        reveal(place);
        reveal_strlit("Kick");
        reveal_strlit(" (graph)");
    }
    assert(place("Timpani"@) == 26) by {
        reveal(place);
        reveal_strlit("Timpani");
    }
    assert(place("Timpani"@ + " (graph)"@) == -1) by {
        reveal(place);
        reveal_strlit("Timpani");
        reveal_strlit(" (graph)");
    }
    assert(place("Cowbell"@) == 27) by {
        reveal(place);
        reveal_strlit("Cowbell");
    }
    assert(place("Snare"@) == 28) by {
        reveal(place);
        reveal_strlit("Snare");
    }
    assert(place("Crash Cymbal"@) == 29) by {
        reveal(place);
        reveal_strlit("Crash Cymbal");
    }
}

proof fn lemma_classic_first()
    ensures
        classic::classic_first_view().len() == 8,
        in_place(classic::classic_first_view(), 22),
{
    lemma_classic_first_names();
}

proof fn lemma_classic_second()
    ensures
        classic::classic_second_view().len() == 5,
        in_place(classic::classic_second_view(), 30),
{
    assert(place("Ride Cymbal"@) == 30) by {
        reveal(place);
        reveal_strlit("Ride Cymbal");
    }
    assert(place("Pure Plate"@) == 31) by {
        reveal(place);
        reveal_strlit("Pure Plate");
    }
    assert(place("Pure Plate"@ + " (graph)"@) == -1) by {
        reveal(place);
        reveal_strlit("Pure Plate");
        reveal_strlit(" (graph)");
    }
    assert(place("Plate Gong"@) == 32) by {
        reveal(place);
        reveal_strlit("Plate Gong");
    }
    assert(place("Plate Gong"@ + " (graph)"@) == -1) by {
        reveal(place);
        reveal_strlit("Plate Gong");
        reveal_strlit(" (graph)");
    }
    assert(place("Triangle Lead"@) == 33) by {
        reveal(place);
        reveal_strlit("Triangle Lead");
    }
    assert(place("Saw Lead"@) == 34) by {
        reveal(place);
        reveal_strlit("Saw Lead");
    }
}

proof fn lemma_strings_first()
    ensures
        strings::strings_first_view().len() == 4,
        in_place(strings::strings_first_view(), 35),
{
    assert(place("Base: Acoustic Guitar"@) == 35) by {
        reveal(place);
        reveal_strlit("Base: Acoustic Guitar");
    }
    assert(place("Base: Electric Guitar"@) == 36) by {
        reveal(place);
        reveal_strlit("Base: Electric Guitar");
    }
    assert(place("Base: Nylon Guitar"@) == 37) by {
        reveal(place);
        reveal_strlit("Base: Nylon Guitar");
    }
    assert(place("Base: Acoustic Bass"@) == 38) by {
        reveal(place);
        reveal_strlit("Base: Acoustic Bass");
    }
}

proof fn lemma_strings_second()
    ensures
        strings::strings_second_view().len() == 4,
        in_place(strings::strings_second_view(), 39),
{
    assert(place("Base: Electric Bass"@) == 39) by {
        reveal(place);
        reveal_strlit("Base: Electric Bass");
    }
    assert(place("Base: Harp"@) == 40) by {
        reveal(place);
        reveal_strlit("Base: Harp");
    }
    assert(place("Base: Banjo"@) == 41) by {
        reveal(place);
        reveal_strlit("Base: Banjo");
    }
    assert(place("Base: Piano"@) == 42) by {
        reveal(place);
        reveal_strlit("Base: Piano");
    }
}

proof fn lemma_strings_third()
    ensures
        strings::strings_third_view().len() == 4,
        in_place(strings::strings_third_view(), 43),
{
    assert(place("Base: Harpsichord"@) == 43) by {
        reveal(place);
        reveal_strlit("Base: Harpsichord");
    }
    assert(place("Base: Clavichord"@) == 44) by {
        reveal(place);
        reveal_strlit("Base: Clavichord");
    }
    assert(place("Base: Cimbalom"@) == 45) by {
        reveal(place);
        reveal_strlit("Base: Cimbalom");
    }
    assert(place("Base: Grand Piano"@) == 46) by {
        reveal(place);
        reveal_strlit("Base: Grand Piano");
    }
}

proof fn lemma_strings_fourth()
    ensures
        strings::strings_fourth_view().len() == 4,
        in_place(strings::strings_fourth_view(), 47),
{
    assert(place("Violin"@) == 47) by {
        reveal(place);
        reveal_strlit("Violin");
    }
    assert(place("Viola"@) == 48) by {
        reveal(place);
        reveal_strlit("Viola");
    }
    assert(place("Cello"@) == 49) by {
        reveal(place);
        reveal_strlit("Cello");
    }
    assert(place("Double Bass"@) == 50) by {
        reveal(place);
        reveal_strlit("Double Bass");
    }
}

proof fn lemma_strings_fifth()
    ensures
        strings::strings_fifth_view().len() == 1,
        in_place(strings::strings_fifth_view(), 51),
{
    assert(place("Hurdy-Gurdy"@) == 51) by {
        reveal(place);
        reveal_strlit("Hurdy-Gurdy");
    }
}

proof fn lemma_percussion_first()
    ensures
        percussion::percussion_first_view().len() == 4,
        in_place(percussion::percussion_first_view(), 52),
{
    assert(place("Base: Vocal Synth"@) == 52) by {
        reveal(place);
        reveal_strlit("Base: Vocal Synth");
    }
    assert(place("Base: Kick"@) == 53) by {
        reveal(place);
        reveal_strlit("Base: Kick");
    }
    assert(place("Base: Tom"@) == 54) by {
        reveal(place);
        reveal_strlit("Base: Tom");
    }
    assert(place("Base: Timpani"@) == 55) by {
        reveal(place);
        reveal_strlit("Base: Timpani");
    }
}

proof fn lemma_percussion_second()
    ensures
        percussion::percussion_second_view().len() == 4,
        in_place(percussion::percussion_second_view(), 56),
{
    assert(place("Base: Snare"@) == 56) by {
        reveal(place);
        reveal_strlit("Base: Snare");
    }
    assert(place("Base: Cowbell"@) == 57) by {
        reveal(place);
        reveal_strlit("Base: Cowbell");
    }
    assert(place("Base: Crash Cymbal"@) == 58) by {
        reveal(place);
        reveal_strlit("Base: Crash Cymbal");
    }
    assert(place("Base: Ride Cymbal"@) == 59) by {
        reveal(place);
        reveal_strlit("Base: Ride Cymbal");
    }
}

proof fn lemma_percussion_third()
    ensures
        percussion::percussion_third_view().len() == 1,
        in_place(percussion::percussion_third_view(), 60),
{
    assert(place("Base: Gong"@) == 60) by {
        reveal(place);
        reveal_strlit("Base: Gong");
    }
}

proof fn lemma_reed_names()
    ensures
        place("Wind: Eb Clarinet"@) == 61,
        place("Wind: Clarinet"@) == 62,
        place("Wind: Basset Horn"@) == 63,
        place("Wind: Bass Clarinet"@) == 64,
        place("Wind: Contrabass Clarinet"@) == 65,
        place("Wind: Soprano Sax"@) == 66,
        place("Wind: Alto Sax"@) == 67,
        place("Wind: Tenor Sax"@) == 68,
        place("Wind: Baritone Sax"@) == 69,
        place("Wind: Bass Sax"@) == 70,
{
    assert(place("Wind: Eb Clarinet"@) == 61) by {
        reveal(place);
        reveal_strlit("Wind: Eb Clarinet");
    }
    assert(place("Wind: Clarinet"@) == 62) by {
        reveal(place);
        reveal_strlit("Wind: Clarinet");
    }
    assert(place("Wind: Basset Horn"@) == 63) by {
        reveal(place);
        reveal_strlit("Wind: Basset Horn");
    }
    assert(place("Wind: Bass Clarinet"@) == 64) by {
        reveal(place);
        reveal_strlit("Wind: Bass Clarinet");
    }
    assert(place("Wind: Contrabass Clarinet"@) == 65) by {
        reveal(place);
        reveal_strlit("Wind: Contrabass Clarinet");
    }
    assert(place("Wind: Soprano Sax"@) == 66) by {
        reveal(place);
        reveal_strlit("Wind: Soprano Sax");
    }
    assert(place("Wind: Alto Sax"@) == 67) by {
        reveal(place);
        reveal_strlit("Wind: Alto Sax");
    }
    assert(place("Wind: Tenor Sax"@) == 68) by {
        reveal(place);
        reveal_strlit("Wind: Tenor Sax");
    }
    assert(place("Wind: Baritone Sax"@) == 69) by {
        reveal(place);
        reveal_strlit("Wind: Baritone Sax");
    }
    assert(place("Wind: Bass Sax"@) == 70) by {
        reveal(place);
        reveal_strlit("Wind: Bass Sax");
    }
}

proof fn lemma_reeds(tables: Seq<Seq<Single>>)
    ensures
        winds::reeds_view(tables).len() == 10,
        in_place(winds::reeds_view(tables), 61),
{
    lemma_reed_names();
}

proof fn lemma_double_reeds()
    ensures
        winds::double_reeds_view().len() == 4,
        in_place(winds::double_reeds_view(), 71),
{
    assert(place("Wind: Oboe"@) == 71) by {
        reveal(place);
        reveal_strlit("Wind: Oboe");
    }
    assert(place("Wind: Cor Anglais"@) == 72) by {
        reveal(place);
        reveal_strlit("Wind: Cor Anglais");
    }
    assert(place("Wind: Bassoon"@) == 73) by {
        reveal(place);
        reveal_strlit("Wind: Bassoon");
    }
    assert(place("Wind: Contrabassoon"@) == 74) by {
        reveal(place);
        reveal_strlit("Wind: Contrabassoon");
    }
}

proof fn lemma_brass()
    ensures
        winds::brass_view().len() == 5,
        in_place(winds::brass_view(), 75),
{
    assert(place("Wind: Trumpet"@) == 75) by {
        reveal(place);
        reveal_strlit("Wind: Trumpet");
    }
    assert(place("Wind: Flugelhorn"@) == 76) by {
        reveal(place);
        reveal_strlit("Wind: Flugelhorn");
    }
    assert(place("Wind: Trombone"@) == 77) by {
        reveal(place);
        reveal_strlit("Wind: Trombone");
    }
    assert(place("Wind: French Horn"@) == 78) by {
        reveal(place);
        reveal_strlit("Wind: French Horn");
    }
    assert(place("Wind: Tuba"@) == 79) by {
        reveal(place);
        reveal_strlit("Wind: Tuba");
    }
}

proof fn lemma_flues()
    ensures
        winds::flues_view().len() == 4,
        in_place(winds::flues_view(), 80),
{
    assert(place("Wind: Piccolo"@) == 80) by {
        reveal(place);
        reveal_strlit("Wind: Piccolo");
    }
    assert(place("Wind: Flute"@) == 81) by {
        reveal(place);
        reveal_strlit("Wind: Flute");
    }
    assert(place("Wind: Alto Flute"@) == 82) by {
        reveal(place);
        reveal_strlit("Wind: Alto Flute");
    }
    assert(place("Wind: Bass Flute"@) == 83) by {
        reveal(place);
        reveal_strlit("Wind: Bass Flute");
    }
}
proof fn lemma_joined(a: Seq<RecipeView>, b: Seq<RecipeView>, at: int)
    requires
        in_place(a, at),
        in_place(b, at + a.len()),
    ensures
        in_place(a + b, at),
{
    assert forall|i: int| 0 <= i < (a + b).len() implies place((#[trigger] (a + b)[i]).name) == at
        + i && (gets_twin((a + b)[i].patch.kind()) ==> place((a + b)[i].name + " (graph)"@) == -1)
        by {
        if i < a.len() {
            assert((a + b)[i] == a[i]);
        } else {
            assert((a + b)[i] == b[i - a.len()]);
        }
    }
}

proof fn lemma_plucked_set()
    ensures
        plucked_set::plucked_set_view().len() == 13,
        in_place(plucked_set::plucked_set_view(), 0),
{
    lemma_plucked_set_first();
    lemma_plucked_set_second();
    lemma_joined(
        plucked_set::plucked_set_first_view(),
        plucked_set::plucked_set_second_view(),
        0,
    );
}

proof fn lemma_showcase()
    ensures
        showcase::showcase_view().len() == 9,
        in_place(showcase::showcase_view(), 13),
{
    lemma_showcase_first();
    lemma_showcase_second();
    lemma_showcase_third();
    lemma_joined(
        showcase::showcase_first_view(),
        showcase::showcase_second_view(),
        13,
    );
    lemma_joined(
        showcase::showcase_first_view() + showcase::showcase_second_view(),
        showcase::showcase_third_view(),
        13,
    );
}

proof fn lemma_classic()
    ensures
        classic::classic_view().len() == 13,
        in_place(classic::classic_view(), 22),
{
    lemma_classic_first();
    lemma_classic_second();
    lemma_joined(classic::classic_first_view(), classic::classic_second_view(), 22);
}

proof fn lemma_strings()
    ensures
        strings::strings_view().len() == 17,
        in_place(strings::strings_view(), 35),
{
    lemma_strings_first();
    lemma_strings_second();
    lemma_strings_third();
    lemma_strings_fourth();
    lemma_strings_fifth();
    let a = strings::strings_first_view() + strings::strings_second_view();
    lemma_joined(strings::strings_first_view(), strings::strings_second_view(), 35);
    lemma_joined(a, strings::strings_third_view(), 35);
    let b = a + strings::strings_third_view();
    lemma_joined(b, strings::strings_fourth_view(), 35);
    lemma_joined(b + strings::strings_fourth_view(), strings::strings_fifth_view(), 35);
}

proof fn lemma_percussion()
    ensures
        percussion::percussion_view().len() == 9,
        in_place(percussion::percussion_view(), 52),
{
    lemma_percussion_first();
    lemma_percussion_second();
    lemma_percussion_third();
    lemma_joined(
        percussion::percussion_first_view(),
        percussion::percussion_second_view(),
        52,
    );
    lemma_joined(
        percussion::percussion_first_view() + percussion::percussion_second_view(),
        percussion::percussion_third_view(),
        52,
    );
}

proof fn lemma_winds(tables: Seq<Seq<Single>>)
    ensures
        winds::winds_view(tables).len() == 23,
        in_place(winds::winds_view(tables), 61),
{
    lemma_reeds(tables);
    lemma_double_reeds();
    lemma_brass();
    lemma_flues();
    lemma_joined(winds::reeds_view(tables), winds::double_reeds_view(), 61);
    lemma_joined(
        winds::reeds_view(tables) + winds::double_reeds_view(),
        winds::brass_view(),
        61,
    );
    lemma_joined(
        winds::reeds_view(tables) + winds::double_reeds_view() + winds::brass_view(),
        winds::flues_view(),
        61,
    );
}

proof fn lemma_recipes(tables: Seq<Seq<Single>>)
    ensures
        factory::recipes(tables).len() == 84,
        in_place(factory::recipes(tables), 0),
{
    lemma_plucked_set();
    lemma_showcase();
    lemma_classic();
    lemma_strings();
    lemma_percussion();
    lemma_winds(tables);
    let a = plucked_set::plucked_set_view() + showcase::showcase_view();
    lemma_joined(plucked_set::plucked_set_view(), showcase::showcase_view(), 0);
    lemma_joined(a, classic::classic_view(), 0);
    let b = a + classic::classic_view();
    lemma_joined(b, strings::strings_view(), 0);
    let c = b + strings::strings_view();
    lemma_joined(c, percussion::percussion_view(), 0);
    let d = c + percussion::percussion_view();
    lemma_joined(d, winds::winds_view(tables), 0);
}

/// No two of these instruments share a name.
pub open spec fn are_distinct(r: Seq<RecipeView>) -> bool {
    forall|i: int, j: int|
        0 <= i < j < r.len() ==> (#[trigger] r[i]).name != (#[trigger] r[j]).name
}

/// None of these instruments is called what the twin of one of them is called.
pub open spec fn leave_twins_free(r: Seq<RecipeView>) -> bool {
    forall|i: int, j: int|
        0 <= i < r.len() && 0 <= j < r.len() && gets_twin(r[j].patch.kind()) ==> (
        #[trigger] r[i]).name != (#[trigger] r[j]).name + " (graph)"@
}

/// No two built-in instruments share a name, whatever the tuning tables.
pub proof fn names_are_distinct(tables: Seq<Seq<Single>>)
    ensures
        are_distinct(factory::recipes(tables)),
{
    lemma_recipes(tables);
}

/// No built-in instrument is called what the twin of another one is called.
pub proof fn names_of_twins_are_free(tables: Seq<Seq<Single>>)
    ensures
        leave_twins_free(factory::recipes(tables)),
{
    lemma_recipes(tables);
}

} // verus!
