use vstd::prelude::*;

use crate::domain::from_str::parse_domain;
use crate::domain::validation::{is_label_char, valid_label, valid_name};
use crate::text::ascii::{is_ascii_text, lower_byte, to_lower, DOT, HYPHEN};
use crate::text::split::{lemma_split_covers, lemma_split_empty_piece, lemma_split_pieces, split};

verus! {

/// Every byte of a valid name is a letter, a digit, a hyphen or a dot, so
/// the name is ASCII text.
pub proof fn lemma_valid_name_bytes(name: Seq<u8>, ignore_case: bool)
    requires
        valid_name(name, ignore_case),
    ensures
        forall|i: int|
            0 <= i < name.len() ==> is_label_char(#[trigger] name[i], ignore_case) || name[i]
                == HYPHEN || name[i] == DOT,
        is_ascii_text(name),
{
    let holds = |c: u8| is_label_char(c, ignore_case) || c == HYPHEN;
    assert forall|k: int, j: int|
        0 <= k < split(name, DOT).len() && 0 <= j < split(name, DOT)[k].len() implies holds(
        #[trigger] split(name, DOT)[k][j],
    ) by {
        assert(valid_label(split(name, DOT)[k], ignore_case));
    }
    lemma_split_covers(name, DOT, holds);
    assert forall|i: int| 0 <= i < name.len() implies is_label_char(
        #[trigger] name[i],
        ignore_case,
    ) || name[i] == HYPHEN || name[i] == DOT by {
        if name[i] != DOT {
            assert(holds(name[i]));
        }
    }
}

/// Folding the case of a text folds the case of each of its labels.
pub proof fn lemma_split_lower(name: Seq<u8>)
    ensures
        split(to_lower(name), DOT).len() == split(name, DOT).len(),
        forall|k: int|
            0 <= k < split(name, DOT).len() ==> #[trigger] split(to_lower(name), DOT)[k]
                == to_lower(split(name, DOT)[k]),
    decreases name.len(),
{
    if name.len() == 0 {
        assert(to_lower(name) =~= name);
        assert(to_lower(Seq::<u8>::empty()) =~= Seq::<u8>::empty());
    } else {
        let t = name.drop_last();
        lemma_split_lower(t);
        lemma_split_pieces(t, DOT);
        assert(to_lower(name).drop_last() =~= to_lower(t));
        assert(to_lower(name).last() == lower_byte(name.last()));
        let before = split(t, DOT);
        let folded = split(to_lower(t), DOT);
        if name.last() == DOT {
            assert(to_lower(Seq::<u8>::empty()) =~= Seq::<u8>::empty());
        } else {
            let last = before.len() - 1;
            assert(folded[last].push(lower_byte(name.last())) =~= to_lower(
                before[last].push(name.last()),
            ));
        }
    }
}

/// A name that is valid when case is ignored is valid as it stands once its
/// case is folded.
pub proof fn lemma_lower_valid(name: Seq<u8>)
    requires
        valid_name(name, true),
    ensures
        valid_name(to_lower(name), false),
{
    lemma_split_lower(name);
    assert forall|k: int| 0 <= k < split(to_lower(name), DOT).len() implies valid_label(
        #[trigger] split(to_lower(name), DOT)[k],
        false,
    ) by {
        let label = split(name, DOT)[k];
        assert(valid_label(label, true));
        assert(split(to_lower(name), DOT)[k] == to_lower(label));
        assert forall|i: int| 0 <= i < label.len() implies is_label_char(
            #[trigger] to_lower(label)[i],
            false,
        ) || to_lower(label)[i] == HYPHEN by {
            assert(is_label_char(label[i], true) || label[i] == HYPHEN);
        }
    }
}

/// A name that is valid as it stands has no case to fold, and is valid when
/// case is ignored too.
pub proof fn lemma_strict_valid(name: Seq<u8>)
    requires
        valid_name(name, false),
    ensures
        to_lower(name) == name,
        valid_name(name, true),
{
    lemma_valid_name_bytes(name, false);
    assert(to_lower(name) =~= name);
    assert forall|k: int| 0 <= k < split(name, DOT).len() implies valid_label(
        #[trigger] split(name, DOT)[k],
        true,
    ) by {
        let label = split(name, DOT)[k];
        assert(valid_label(label, false));
        assert forall|i: int| 0 <= i < label.len() implies is_label_char(
            #[trigger] label[i],
            true,
        ) || label[i] == HYPHEN by {
            assert(is_label_char(label[i], false) || label[i] == HYPHEN);
        }
    }
}

/// Parsing a name always folds its case: the text stands for a name exactly
/// where it is valid when case is ignored, and the name is the folded text,
/// itself valid as it stands.
pub proof fn lemma_folded(text: Seq<u8>)
    ensures
        parse_domain(text) is Some <==> valid_name(text, true),
        valid_name(text, true) ==> parse_domain(text) == Some(to_lower(text)) && valid_name(
            to_lower(text),
            false,
        ),
{
    if valid_name(text, false) {
        lemma_strict_valid(text);
    }
    if valid_name(text, true) {
        lemma_lower_valid(text);
    }
}

/// The bounds of a label: from 1 to 63 bytes of letters, digits and hyphens
/// it is valid unless a hyphen stands first or last; empty, longer than 63,
/// or with a hyphen at either end (so the lone hyphen too) it is not.
pub proof fn lemma_label_boundary(label: Seq<u8>, ignore_case: bool)
    ensures
        label.len() == 0 ==> !valid_label(label, ignore_case),
        label.len() >= 64 ==> !valid_label(label, ignore_case),
        label.len() > 0 && label[0] == HYPHEN ==> !valid_label(label, ignore_case),
        label.len() > 0 && label[label.len() - 1] == HYPHEN ==> !valid_label(label, ignore_case),
        label == seq![HYPHEN] ==> !valid_label(label, ignore_case),
        (1 <= label.len() <= 63 && label[0] != HYPHEN && label[label.len() - 1] != HYPHEN
            && forall|i: int|
            0 <= i < label.len() ==> is_label_char(#[trigger] label[i], ignore_case) || label[i]
                == HYPHEN) ==> valid_label(label, ignore_case),
{
    if label == seq![HYPHEN] {
        assert(label[0] == HYPHEN);
    }
}

/// The bounds of a name: from 1 to 253 bytes with every label valid it is
/// valid; empty or longer than 253 it is not.
pub proof fn lemma_name_boundary(name: Seq<u8>, ignore_case: bool)
    ensures
        name.len() == 0 ==> !valid_name(name, ignore_case),
        name.len() >= 254 ==> !valid_name(name, ignore_case),
        (1 <= name.len() <= 253 && forall|k: int|
            0 <= k < split(name, DOT).len() ==> valid_label(
                #[trigger] split(name, DOT)[k],
                ignore_case,
            )) ==> valid_name(name, ignore_case),
{
}

/// A dot that stands first, last or right before another dot leaves an empty
/// label, and the name is not valid.
pub proof fn lemma_name_empty_label(name: Seq<u8>, i: int, ignore_case: bool)
    requires
        0 <= i < name.len(),
        name[i] == DOT,
        i == 0 || i == name.len() - 1 || name[i + 1] == DOT,
    ensures
        !valid_name(name, ignore_case),
{
    lemma_split_empty_piece(name, i, DOT);
    let k = choose|k: int|
        0 <= k < split(name, DOT).len() && #[trigger] split(name, DOT)[k].len() == 0;
    assert(!valid_label(split(name, DOT)[k], ignore_case));
}

/// Round trip of a domain: its text is its name, and reads back as the
/// name.
pub proof fn lemma_domain_round_trip(name: Seq<u8>)
    requires
        valid_name(name, false),
    ensures
        parse_domain(name) == Some(name),
{
}

/// A text whose folded form is a valid name when case is ignored is one
/// itself: folding turns no other byte into a letter.
pub proof fn lemma_unfold_valid(text: Seq<u8>)
    requires
        valid_name(to_lower(text), true),
    ensures
        valid_name(text, true),
{
    lemma_split_lower(text);
    assert forall|k: int| 0 <= k < split(text, DOT).len() implies valid_label(
        #[trigger] split(text, DOT)[k],
        true,
    ) by {
        let label = split(text, DOT)[k];
        let folded = split(to_lower(text), DOT)[k];
        assert(valid_label(folded, true));
        assert(folded == to_lower(label));
        assert(to_lower(label)[0] == lower_byte(label[0]));
        assert(to_lower(label)[label.len() - 1] == lower_byte(label[label.len() - 1]));
        assert forall|i: int| 0 <= i < label.len() implies is_label_char(
            #[trigger] label[i],
            true,
        ) || label[i] == HYPHEN by {
            assert(is_label_char(folded[i], true) || folded[i] == HYPHEN);
            assert(folded[i] == lower_byte(label[i]));
        }
    }
}

/// Folding the case of a text before it is parsed changes nothing: the
/// folded text stands for the same name, or for none where the text stands
/// for none.
pub proof fn lemma_case_fold(text: Seq<u8>)
    ensures
        parse_domain(text) == parse_domain(to_lower(text)),
        valid_name(text, true) ==> parse_domain(text) == Some(to_lower(text)),
{
    lemma_folded(text);
    lemma_folded(to_lower(text));
    if valid_name(to_lower(text), true) {
        lemma_unfold_valid(text);
    }
    if valid_name(text, true) {
        lemma_lower_valid(text);
        lemma_strict_valid(to_lower(text));
    }
}

} // verus!
