//! The parts of a chat message that stands in the transcript above the
//! typing area, and the making of a new one.

use crate::color_utils::{Color, ColorScheme};
use crate::component_utils::PreserveOnClear;
use vstd::prelude::*;
use vstd::string::*;

verus! {

/// What the message says. It never changes once the message exists.
#[derive(Clone, PartialEq, Eq, Debug)]
pub struct MsgText(pub String);

/// The colour of the message's text.
#[derive(Clone, Copy, PartialEq, Eq, Debug, Structural)]
pub struct FontColor(pub Color);

/// The colour of the message's bubble.
#[derive(Clone, Copy, PartialEq, Eq, Debug, Structural)]
pub struct BkgColor(pub Color);

/// Whether the player sent the message. It never changes once the message
/// exists.
#[derive(Clone, Copy, PartialEq, Eq, Debug, Structural)]
pub struct IsMine(pub bool);

/// A horizontal direction.
#[allow(non_camel_case_types)]
#[allow(clippy::upper_case_acronyms)]
#[derive(Clone, Copy, PartialEq, Eq, Debug, Structural)]
pub enum HDir {
    LEFT,
    RIGHT,
}

impl HDir {
    /// The side of the transcript on which a message stands: the player's own
    /// on the right, everyone else's on the left.
    pub open spec fn of_sender(is_mine: bool) -> HDir {
        if is_mine {
            HDir::RIGHT
        } else {
            HDir::LEFT
        }
    }

    /// The direction's name in capitals, as it is shown in diagnostics.
    pub fn to_string(&self) -> (name: String)
        ensures
            name@ == (match *self {
                HDir::LEFT => "LEFT"@,
                HDir::RIGHT => "RIGHT"@,
            }),
    {
        match self {
            HDir::LEFT => String::from_str("LEFT"),
            HDir::RIGHT => String::from_str("RIGHT"),
        }
    }
}

/// The side of the transcript on which the message stands.
#[derive(Clone, Copy, PartialEq, Eq, Debug, Structural)]
pub struct Side(pub HDir);

/// The message's place in the order of display. Later messages have larger
/// ones, and none is given out twice.
#[derive(Clone, Copy, PartialEq, Eq, Debug, Structural)]
pub struct Index(usize);

impl Index {
    /// The place as a number.
    pub closed spec fn value(&self) -> usize {
        self.0
    }

    /// The place as a number.
    pub fn get(&self) -> (value: usize)
        ensures
            value == self.value(),
    {
        self.0
    }
}

/// The index that the next message will get. It starts at zero and only ever
/// grows, by one for each message made, so that the index of a message that
/// is gone is not handed out again.
#[derive(Debug)]
pub struct NextIndex(usize);

impl NextIndex {
    /// The index that the next message will get.
    pub closed spec fn value(&self) -> usize {
        self.0
    }

    /// The index that the next message will get.
    pub fn get(&self) -> (value: usize)
        ensures
            value == self.value(),
    {
        self.0
    }

    /// The index that the message made after `count` others will get.
    pub open spec fn after(&self, count: nat) -> int {
        self.value() + count
    }

    /// A message made later has a larger index than every message made
    /// before it: counted from any state of the counter, fewer messages made
    /// in between means a smaller index. Nothing lowers the counter, so this
    /// holds whatever was removed in the meantime.
    pub proof fn lemma_later_index_is_larger(&self, earlier: nat, later: nat)
        requires
            earlier < later,
        ensures
            self.after(earlier) < self.after(later),
    {
    }
}

impl Default for NextIndex {
    fn default() -> (counter: NextIndex)
        ensures
            counter.value() == 0,
    {
        NextIndex(0)
    }
}

/// Everything a chat message is spawned with.
#[derive(Clone, PartialEq, Eq, Debug)]
pub struct SentMessageBundle {
    pub text: MsgText,
    pub font_color: FontColor,
    pub bkg_color: BkgColor,
    pub is_mine: IsMine,
    pub side: Side,
    pub index: Index,
}

impl SentMessageBundle {
    /// Whether this is the message that `spawn_sent_message` makes from the
    /// given text and sender when the counter stands at `index` and the
    /// palette is `color_scheme`.
    pub open spec fn is_spawn_of(
        &self,
        index: usize,
        color_scheme: ColorScheme,
        text: Seq<char>,
        is_mine: bool,
    ) -> bool {
        &&& self.text.0@ == text
        &&& self.font_color == FontColor(color_scheme.text_color(is_mine))
        &&& self.bkg_color == BkgColor(color_scheme.bubble_color(is_mine))
        &&& self.is_mine == IsMine(is_mine)
        &&& self.side == Side(HDir::of_sender(is_mine))
        &&& self.index.value() == index
    }
}

/// Makes the message that says `text`, sent by the player if `is_mine`, and
/// moves the counter on by one.
///
/// The message takes its two colours from `color_scheme` by its sender, its
/// side from its sender, and its index from the counter as it stood. With
/// `preserve_on_clear` it comes with the marker that keeps it through a clear
/// of the transcript. The caller spawns what is returned.
///
/// The counter must not have reached the largest number, where it could not
/// move on.
pub fn spawn_sent_message(
    next_index: &mut NextIndex,
    color_scheme: &ColorScheme,
    text: &str,
    is_mine: bool,
    preserve_on_clear: bool,
) -> (spawned: (SentMessageBundle, Option<PreserveOnClear>))
    requires
        old(next_index).value() < usize::MAX,
    ensures
        spawned.0.is_spawn_of(old(next_index).value(), *color_scheme, text@, is_mine),
        spawned.1 is Some <==> preserve_on_clear,
        final(next_index).value() == old(next_index).value() + 1,
        final(next_index).value() == old(next_index).after(1),
{
    let msg_bundle = SentMessageBundle {
        text: MsgText(String::from_str(text)),
        font_color: FontColor(
            if is_mine {
                color_scheme.my_text_color
            } else {
                color_scheme.their_text_color
            },
        ),
        bkg_color: BkgColor(
            if is_mine {
                color_scheme.my_bubble_color
            } else {
                color_scheme.their_bubble_color
            },
        ),
        is_mine: IsMine(is_mine),
        side: Side(
            if is_mine {
                HDir::RIGHT
            } else {
                HDir::LEFT
            },
        ),
        index: Index(next_index.0),
    };
    let marker = if preserve_on_clear {
        Some(PreserveOnClear)
    } else {
        None
    };
    next_index.0 += 1;
    (msg_bundle, marker)
}

} // verus!
