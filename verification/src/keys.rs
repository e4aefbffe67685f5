//! The modifiers of a key binding, as they are written in the configuration
//! file: the names of the modifiers that are held, with `+` between them.

use crate::text::{joined, lemma_find, lemma_split_joined, split_at_mark, split_once};
use vstd::prelude::*;

verus! {

/// Which modifier keys are held.
#[derive(Clone, Copy, Debug, PartialEq, Eq, Structural)]
pub struct KeyModifiers {
    pub control: bool,
    pub alt: bool,
    pub shift: bool,
}

/// No modifier held.
pub open spec fn no_modifiers() -> KeyModifiers {
    KeyModifiers { control: false, alt: false, shift: false }
}

/// The names of the modifiers that are held, in the order in which they are
/// written.
pub open spec fn modifier_names(modifiers: KeyModifiers) -> Seq<Seq<char>> {
    (if modifiers.control {
        seq!["Ctrl"@]
    } else {
        Seq::empty()
    }) + (if modifiers.alt {
        seq!["Alt"@]
    } else {
        Seq::empty()
    }) + (if modifiers.shift {
        seq!["Shift"@]
    } else {
        Seq::empty()
    })
}

/// The text of the modifiers: their names with `+` between them.
pub open spec fn modifiers_text(modifiers: KeyModifiers) -> Seq<char> {
    joined(modifier_names(modifiers), "+"@)
}

/// The complaint about a name that is no modifier.
pub open spec fn unknown_modifier(part: Seq<char>) -> Seq<char> {
    "Unknown key modifier: "@ + part
}

/// `modifiers` with the modifier that `part` names held as well. An empty
/// part names none; any other text is refused.
pub open spec fn with_part(modifiers: KeyModifiers, part: Seq<char>) -> Result<
    KeyModifiers,
    Seq<char>,
> {
    if part == "Ctrl"@ {
        Ok(KeyModifiers { control: true, ..modifiers })
    } else if part == "Alt"@ {
        Ok(KeyModifiers { alt: true, ..modifiers })
    } else if part == "Shift"@ {
        Ok(KeyModifiers { shift: true, ..modifiers })
    } else if part.len() == 0 {
        Ok(modifiers)
    } else {
        Err(unknown_modifier(part))
    }
}

/// The modifiers that `text` names, added to `modifiers`: the parts between
/// the `+` signs are taken in turn, and the first that is refused ends the
/// reading.
pub open spec fn parsed_from(text: Seq<char>, modifiers: KeyModifiers) -> Result<
    KeyModifiers,
    Seq<char>,
>
    decreases text.len(),
    via parsed_from_decreases
{
    match split_once(text, '+') {
        Some((head, tail)) => match with_part(modifiers, head) {
            Ok(more) => parsed_from(tail, more),
            Err(complaint) => Err(complaint),
        },
        None => with_part(modifiers, text),
    }
}

#[via_fn]
proof fn parsed_from_decreases(text: Seq<char>, modifiers: KeyModifiers) {
    lemma_find(text, '+');
}

/// The modifiers that `text` names.
pub open spec fn parsed_modifiers(text: Seq<char>) -> Result<KeyModifiers, Seq<char>> {
    parsed_from(text, no_modifiers())
}

/// Writes the modifiers.
pub fn key_modifiers_to_string(modifiers: &KeyModifiers) -> (text: String)
    ensures
        text@ == modifiers_text(*modifiers),
{
    let mut names: Vec<String> = Vec::new();
    if modifiers.control {
        names.push(String::from_str("Ctrl"));
    }
    if modifiers.alt {
        names.push(String::from_str("Alt"));
    }
    if modifiers.shift {
        names.push(String::from_str("Shift"));
    }
    proof {
        assert(names.deep_view() =~= modifier_names(*modifiers));
    }
    crate::text::join(&names, "+")
}

fn add_part(modifiers: KeyModifiers, part: String) -> (added: Result<KeyModifiers, String>)
    ensures
        match added {
            Ok(more) => with_part(modifiers, part@) == Ok::<KeyModifiers, Seq<char>>(more),
            Err(complaint) => with_part(modifiers, part@) == Err::<KeyModifiers, Seq<char>>(
                complaint@,
            ),
        },
{
    if part == String::from_str("Ctrl") {
        Ok(KeyModifiers { control: true, alt: modifiers.alt, shift: modifiers.shift })
    } else if part == String::from_str("Alt") {
        Ok(KeyModifiers { control: modifiers.control, alt: true, shift: modifiers.shift })
    } else if part == String::from_str("Shift") {
        Ok(KeyModifiers { control: modifiers.control, alt: modifiers.alt, shift: true })
    } else if part.as_str().unicode_len() == 0 {
        Ok(modifiers)
    } else {
        let mut complaint = String::from_str("Unknown key modifier: ");
        complaint.append(part.as_str());
        Err(complaint)
    }
}

/// Reads the modifiers that `text` names.
pub fn parse_key_modifiers(text: &str) -> (read: Result<KeyModifiers, String>)
    ensures
        match read {
            Ok(modifiers) => parsed_modifiers(text@) == Ok::<KeyModifiers, Seq<char>>(modifiers),
            Err(complaint) => parsed_modifiers(text@) == Err::<KeyModifiers, Seq<char>>(
                complaint@,
            ),
        },
{
    let mut modifiers = KeyModifiers { control: false, alt: false, shift: false };
    let mut rest = String::from_str(text);
    loop
        invariant
            parsed_from(rest@, modifiers) == parsed_modifiers(text@),
        decreases rest@.len(),
    {
        proof {
            lemma_find(rest@, '+');
        }
        match split_at_mark(rest.as_str(), '+') {
            Some((head, tail)) => {
                match add_part(modifiers, head) {
                    Ok(more) => {
                        modifiers = more;
                        rest = tail;
                    },
                    Err(complaint) => {
                        return Err(complaint);
                    },
                }
            },
            None => {
                return add_part(modifiers, rest);
            },
        }
    }
}

proof fn lemma_part_then_rest(head: Seq<char>, tail: Seq<char>, modifiers: KeyModifiers)
    requires
        !head.contains('+'),
    ensures
        parsed_from(head + seq!['+'] + tail, modifiers) == match with_part(modifiers, head) {
            Ok(more) => parsed_from(tail, more),
            Err(complaint) => Err(complaint),
        },
{
    lemma_split_joined(head, '+', tail);
}

proof fn lemma_last_part(text: Seq<char>, modifiers: KeyModifiers)
    requires
        !text.contains('+'),
    ensures
        parsed_from(text, modifiers) == with_part(modifiers, text),
{
    lemma_find(text, '+');
    if crate::text::find(text, '+') is Some {
        let place = crate::text::find(text, '+').unwrap();
        assert(text.contains(text[place]));
    }
}

/// What is written for a set of modifiers is read back as the same set.
pub proof fn law_modifiers_read_back(modifiers: KeyModifiers)
    ensures
        parsed_modifiers(modifiers_text(modifiers)) == Ok::<KeyModifiers, Seq<char>>(modifiers),
{
    reveal_strlit("Ctrl");
    reveal_strlit("Alt");
    reveal_strlit("Shift");
    reveal_strlit("+");
    let c = "Ctrl"@;
    let a = "Alt"@;
    let s = "Shift"@;
    let plus = seq!['+'];
    assert("+"@ =~= plus);
    assert(!c.contains('+') && !a.contains('+') && !s.contains('+'));
    assert(c.len() == 4 && a.len() == 3 && s.len() == 5);
    let none = no_modifiers();
    let empty = Seq::<char>::empty();
    assert(!empty.contains('+'));
    reveal_with_fuel(joined, 4);
    let names = modifier_names(modifiers);
    let text = modifiers_text(modifiers);
    let first = KeyModifiers { control: modifiers.control, alt: false, shift: false };
    let second = KeyModifiers { control: modifiers.control, alt: modifiers.alt, shift: false };
    if modifiers.control && modifiers.alt && modifiers.shift {
        assert(names =~= seq![c, a, s]);
        assert(names.drop_last() =~= seq![c, a]);
        assert(names.drop_last().drop_last() =~= seq![c]);
        assert(text =~= c + plus + (a + plus + s));
        lemma_part_then_rest(c, a + plus + s, none);
        lemma_part_then_rest(a, s, first);
        lemma_last_part(s, second);
    } else if modifiers.control && modifiers.alt {
        assert(names =~= seq![c, a]);
        assert(names.drop_last() =~= seq![c]);
        assert(text =~= c + plus + a);
        lemma_part_then_rest(c, a, none);
        lemma_last_part(a, first);
    } else if modifiers.control && modifiers.shift {
        assert(names =~= seq![c, s]);
        assert(names.drop_last() =~= seq![c]);
        assert(text =~= c + plus + s);
        lemma_part_then_rest(c, s, none);
        lemma_last_part(s, first);
    } else if modifiers.alt && modifiers.shift {
        assert(names =~= seq![a, s]);
        assert(names.drop_last() =~= seq![a]);
        assert(text =~= a + plus + s);
        lemma_part_then_rest(a, s, none);
        lemma_last_part(s, second);
    } else if modifiers.control {
        assert(names =~= seq![c]);
        assert(text =~= c);
        lemma_last_part(c, none);
    } else if modifiers.alt {
        assert(names =~= seq![a]);
        assert(text =~= a);
        lemma_last_part(a, none);
    } else if modifiers.shift {
        assert(names =~= seq![s]);
        assert(text =~= s);
        lemma_last_part(s, none);
    } else {
        assert(names =~= Seq::<Seq<char>>::empty());
        assert(text =~= empty);
        lemma_last_part(empty, none);
    }
}

} // verus!
