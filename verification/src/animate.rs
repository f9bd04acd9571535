//! The spinner shown while an operation runs.

use vstd::prelude::*;
use vstd::string::*;

verus! {

/// The look of the spinner.
#[derive(Debug, Copy, Clone, PartialEq, Eq, PartialOrd, Ord, Hash, Default)]
pub enum AnimationStyle {
    #[default]
    Modern,
    Classic,
}

/// Whether the spinner stands before or after the message.
#[derive(Debug, Copy, Clone, PartialEq, Eq, PartialOrd, Ord, Hash, Default)]
pub enum AnimationOrder {
    #[default]
    Before,
    After,
}

/// How the spinner is shown.
#[derive(Debug, Copy, Clone, PartialEq, Eq, PartialOrd, Ord, Hash, Default)]
pub struct AnimationSettings {
    pub style: AnimationStyle,
    pub order: AnimationOrder,
}

/// The frames of a style, which are shown in turn.
pub open spec fn frames_of(style: AnimationStyle) -> Seq<char> {
    match style {
        AnimationStyle::Classic => seq!['|', '/', '-', '\\'],
        AnimationStyle::Modern => seq!['⣷', '⣯', '⣟', '⡿', '⢿', '⣻', '⣽', '⣾'],
    }
}

/// One frame of the animation: a carriage return, then the spinner and the
/// message in the order asked for, each followed by a blank.
pub open spec fn frame_text(order: AnimationOrder, message: Seq<char>, spinner: char) -> Seq<char> {
    match order {
        AnimationOrder::Before => "\r"@.push(spinner) + " "@ + message + " "@,
        AnimationOrder::After => "\r"@ + message + " "@.push(spinner) + " "@,
    }
}

impl AnimationSettings {
    /// The frames of the spinner; after the last one the first follows again.
    pub fn get_spinner_chars(&self) -> (out: Vec<char>)
        ensures
            out@ == frames_of(self.style),
            out@.len() > 0,
    {
        let mut out: Vec<char> = Vec::new();
        match self.style {
            AnimationStyle::Classic => {
                out.push('|');
                out.push('/');
                out.push('-');
                out.push('\\');
            },
            AnimationStyle::Modern => {
                out.push('⣷');
                out.push('⣯');
                out.push('⣟');
                out.push('⡿');
                out.push('⢿');
                out.push('⣻');
                out.push('⣽');
                out.push('⣾');
            },
        }
        assert(out@ =~= frames_of(self.style));
        out
    }

    /// The frame to show at the `tick`-th step of the animation.
    pub fn animation(&self, message: &str, tick: usize) -> (out: String)
        ensures
            out@ == frame_text(
                self.order,
                message@,
                frames_of(self.style)[(tick as int) % (frames_of(self.style).len() as int)],
            ),
    {
        let frames = self.get_spinner_chars();
        let spinner = frames[tick % frames.len()];
        let mut out = String::from_str("\r");
        match self.order {
            AnimationOrder::Before => {
                out.push(spinner);
                out.append(" ");
                out.append(message);
                out.append(" ");
            },
            AnimationOrder::After => {
                out.append(message);
                let mut tail = String::from_str(" ");
                tail.push(spinner);
                out.append(tail.as_str());
                out.append(" ");
            },
        }
        out
    }
}

} // verus!
