//! Installed voices and the identifiers under which they are chosen.

use vstd::prelude::*;
use vstd::string::StringExecFns;

verus! {

/// What the platform tells of one installed voice.
#[derive(Debug, PartialEq, Eq)]
pub struct Voice {
    /// Name of the voice, where the platform gives one.
    pub name: Option<String>,
    /// Language tag of the voice, where the platform gives one.
    pub language: Option<String>,
}

/// Mathematical value of a [`Voice`].
pub struct VoiceView {
    pub name: Option<Seq<char>>,
    pub language: Option<Seq<char>>,
}

impl View for Voice {
    type V = VoiceView;

    open spec fn view(&self) -> VoiceView {
        VoiceView {
            name: match self.name {
                Some(n) => Some(n@),
                None => None,
            },
            language: match self.language {
                Some(l) => Some(l@),
                None => None,
            },
        }
    }
}

impl VoiceView {
    /// The display identifier: the name, a space, and the language tag in
    /// square brackets. A part that the platform does not give is empty.
    pub open spec fn identifier(self) -> Seq<char> {
        let name = match self.name {
            Some(n) => n,
            None => Seq::<char>::empty(),
        };
        let language = match self.language {
            Some(l) => l,
            None => Seq::<char>::empty(),
        };
        name + seq![' ', '['] + language + seq![']']
    }
}

/// The display identifier of a voice, under which a choice of voice is kept.
pub fn get_voice_name(voice: &Voice) -> (identifier: String)
    ensures
        identifier@ == voice@.identifier(),
{
    let mut identifier = match &voice.name {
        Some(name) => name.clone(),
        None => String::new(),
    };
    proof {
        reveal_strlit(" [");
        reveal_strlit("]");
    }
    identifier.append(" [");
    match &voice.language {
        Some(language) => identifier.append(language.as_str()),
        None => {},
    }
    identifier.append("]");
    identifier
}

/// The display identifiers of a catalog, in catalog order.
pub open spec fn identifiers(voices: Seq<Voice>) -> Seq<Seq<char>> {
    voices.map_values(|voice: Voice| voice@.identifier())
}

/// Position of the first voice of the catalog whose display identifier is
/// `name`; `None` where no voice has it.
pub open spec fn position_of(voices: Seq<Voice>, name: Seq<char>) -> Option<int> {
    identifiers(voices).index_of_first(name)
}

/// The voice that a request for `name` leads to: the first voice under that
/// identifier, else the first voice of the catalog, and none only where the
/// catalog is empty.
pub open spec fn resolved(voices: Seq<Voice>, name: Seq<char>) -> Option<int> {
    match position_of(voices, name) {
        Some(position) => Some(position),
        None => if voices.len() > 0 {
            Some(0)
        } else {
            None
        },
    }
}

/// The display identifier at a position of the catalog; empty past its end.
pub open spec fn identifier_at(voices: Seq<Voice>, index: int) -> Seq<char> {
    if 0 <= index < voices.len() {
        voices[index]@.identifier()
    } else {
        Seq::<char>::empty()
    }
}

/// What [`position_of`] is, said by positions: it names a voice under the
/// identifier before which no other voice has it, and is `None` exactly
/// when no voice has it.
pub proof fn lemma_position_of(voices: Seq<Voice>, name: Seq<char>)
    ensures
        match position_of(voices, name) {
            Some(position) => {
                &&& 0 <= position < voices.len()
                &&& voices[position]@.identifier() == name
                &&& forall|earlier: int|
                    0 <= earlier < position ==> (#[trigger] voices[earlier])@.identifier() != name
            },
            None => forall|any: int|
                0 <= any < voices.len() ==> (#[trigger] voices[any])@.identifier() != name,
        },
{
    let names = identifiers(voices);
    names.index_of_first_ensures(name);
    match names.index_of_first(name) {
        Some(position) => {
            assert forall|earlier: int| 0 <= earlier < position implies (#[trigger] voices[earlier])@
                .identifier() != name by {
                assert(names[earlier] != name);
            }
        },
        None => {
            assert forall|any: int| 0 <= any < voices.len() implies (#[trigger] voices[any])@
                .identifier() != name by {
                assert(names[any] == voices[any]@.identifier());
            }
        },
    }
}

/// A position that holds the identifier, with none before it that does, is
/// the one that [`position_of`] gives.
pub proof fn lemma_position_of_first(voices: Seq<Voice>, name: Seq<char>, position: int)
    requires
        0 <= position < voices.len(),
        voices[position]@.identifier() == name,
        forall|earlier: int|
            0 <= earlier < position ==> (#[trigger] voices[earlier])@.identifier() != name,
    ensures
        position_of(voices, name) == Some(position),
{
    lemma_position_of(voices, name);
}

/// Looking up the identifier of an installed voice leads back to a voice
/// under that identifier: to the first one that carries it, which is the
/// voice itself unless an earlier voice has the same identifier. The
/// identifier at the position found is the one that was looked up.
pub proof fn lemma_lookup_round_trip(voices: Seq<Voice>, index: int)
    requires
        0 <= index < voices.len(),
    ensures
        match position_of(voices, voices[index]@.identifier()) {
            Some(position) => {
                &&& 0 <= position <= index
                &&& identifier_at(voices, position) == voices[index]@.identifier()
                &&& (forall|earlier: int|
                    0 <= earlier < index ==> (#[trigger] voices[earlier])@.identifier()
                        != voices[index]@.identifier()) ==> position == index
            },
            None => false,
        },
{
    lemma_position_of(voices, voices[index]@.identifier());
}

/// A request for an identifier that no installed voice carries leads to the
/// first voice of the catalog, and to no voice only where the catalog is
/// empty.
pub proof fn lemma_fallback(voices: Seq<Voice>, name: Seq<char>)
    requires
        forall|any: int| 0 <= any < voices.len() ==> (#[trigger] voices[any])@.identifier() != name,
    ensures
        voices.len() > 0 ==> resolved(voices, name) == Some(0int),
        voices.len() == 0 ==> resolved(voices, name).is_none(),
{
    lemma_position_of(voices, name);
}

/// Looks a display identifier up in the catalog.
pub fn find_voice(voices: &Vec<Voice>, name: &str) -> (found: Option<usize>)
    ensures
        match found {
            Some(position) => position < voices.len() && position_of(voices@, name@) == Some(
                position as int,
            ),
            None => position_of(voices@, name@).is_none(),
        },
{
    let wanted = String::from_str(name);
    let mut index: usize = 0;
    while index < voices.len()
        invariant
            index <= voices.len(),
            wanted@ == name@,
            forall|earlier: int|
                0 <= earlier < index ==> (#[trigger] voices@[earlier])@.identifier() != name@,
        decreases voices.len() - index,
    {
        if get_voice_name(&voices[index]) == wanted {
            proof {
                lemma_position_of_first(voices@, name@, index as int);
            }
            return Some(index);
        }
        index += 1;
    }
    proof {
        lemma_position_of(voices@, name@);
    }
    None
}

/// The voice to use for a requested identifier: the one found under it, else
/// the first of the catalog; `None` only for an empty catalog.
pub fn resolve_voice(voices: &Vec<Voice>, name: &str) -> (choice: Option<usize>)
    ensures
        match choice {
            Some(position) => resolved(voices@, name@) == Some(position as int) && position
                < voices.len(),
            None => resolved(voices@, name@).is_none() && voices.len() == 0,
        },
{
    proof {
        lemma_position_of(voices@, name@);
    }
    match find_voice(voices, name) {
        Some(position) => Some(position),
        None => if voices.len() > 0 {
            Some(0)
        } else {
            None
        },
    }
}

} // verus!
