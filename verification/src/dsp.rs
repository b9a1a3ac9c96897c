use vstd::prelude::*;

use crate::model::OVERSAMPLING_LABELS;
use crate::text::decimal;

verus! {

/// How the compressor acts on the signal.
#[derive(Clone, Copy, Debug, PartialEq, Eq, Structural)]
pub enum CompressorMode {
    Downward,
    Upward,
    Boosting,
}

impl CompressorMode {
    /// The mode that the compressor mode choice selects: its second and third labels pick
    /// upward and boosting, anything else downward.
    pub fn from_choice(choice: usize) -> (mode: CompressorMode)
        ensures
            mode == if choice == 1 {
                CompressorMode::Upward
            } else if choice == 2 {
                CompressorMode::Boosting
            } else {
                CompressorMode::Downward
            },
    {
        match choice {
            1 => CompressorMode::Upward,
            2 => CompressorMode::Boosting,
            _ => CompressorMode::Downward,
        }
    }
}

/// How many times faster than the host the engine runs for oversampling choice
/// `selection`.
pub open spec fn spec_oversampling_factor(selection: int) -> int {
    if 1 <= selection <= 4 {
        2 * selection
    } else {
        1
    }
}

/// The oversampling factor is the one its label names: the choice labelled "2x" runs
/// twice as fast, "4x" four times, "6x" six times, "8x" eight times; "Off" and any
/// position past the labels run at the host rate.
pub proof fn lemma_oversampling_labels(selection: int)
    ensures
        1 <= selection < OVERSAMPLING_LABELS@.len() ==> OVERSAMPLING_LABELS@[selection]@ == decimal(
            spec_oversampling_factor(selection) as nat,
        ) + "x"@,
        OVERSAMPLING_LABELS@[0]@ == "Off"@ && spec_oversampling_factor(0) == 1,
        selection >= OVERSAMPLING_LABELS@.len() || selection < 0 ==> spec_oversampling_factor(
            selection,
        ) == 1,
{
    reveal_strlit("Off");
    reveal_strlit("2x");
    reveal_strlit("4x");
    reveal_strlit("6x");
    reveal_strlit("8x");
    reveal_strlit("x");
    assert(decimal(2) =~= seq!['2']);
    assert(decimal(4) =~= seq!['4']);
    assert(decimal(6) =~= seq!['6']);
    assert(decimal(8) =~= seq!['8']);
    assert("2x"@ =~= seq!['2'] + "x"@);
    assert("4x"@ =~= seq!['4'] + "x"@);
    assert("6x"@ =~= seq!['6'] + "x"@);
    assert("8x"@ =~= seq!['8'] + "x"@);
}

/// How many times faster than the host the engine runs for an oversampling choice:
/// its labels give 2, 4, 6 and 8 times, and anything else runs at the host rate.
pub fn oversampling_factor(selection: usize) -> (factor: usize)
    ensures
        factor == spec_oversampling_factor(selection as int),
        factor == if selection == 1 {
            2usize
        } else if selection == 2 {
            4usize
        } else if selection == 3 {
            6usize
        } else if selection == 4 {
            8usize
        } else {
            1usize
        },
{
    match selection {
        1 => 2,
        2 => 4,
        3 => 6,
        4 => 8,
        _ => 1,
    }
}

} // verus!
