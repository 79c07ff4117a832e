//! Sending one warning to the active callback.

use vstd::prelude::*;
use crate::category::PolarsWarning;
use crate::registry::{get_warning_function, WarningSlot};

verus! {

/// The line that stands for a warning where no callback was installed: the
/// category's name, a colon, a space, and the message.
pub open spec fn spec_warning_line(message: Seq<char>, category: PolarsWarning) -> Seq<char> {
    category.name() + ": "@ + message
}

/// Builds the line for `message` under `category`.
pub fn warning_line(message: &str, category: PolarsWarning) -> (line: String)
    ensures
        line@ == spec_warning_line(message@, category),
{
    let mut line = String::from_str(category.debug_name());
    line.append(": ");
    line.append(message);
    line
}

/// A warning line begins with the category's name, and what follows the
/// name is a colon, a space and the message.
pub proof fn lemma_line_begins_with_name(message: Seq<char>, category: PolarsWarning)
    ensures
        category.name().is_prefix_of(spec_warning_line(message, category)),
        spec_warning_line(message, category).skip(category.name().len() as int) == ": "@
            + message,
{
    let name = category.name();
    let line = spec_warning_line(message, category);
    assert(line == name + (": "@ + message));
    assert(line.skip(name.len() as int) =~= ": "@ + message);
    assert(line.subrange(0, name.len() as int) =~= name);
}

/// The category can be read back from a warning line: two categories give
/// one message the same line only if they are the same category.
pub proof fn lemma_line_determines_category(
    message: Seq<char>,
    first: PolarsWarning,
    second: PolarsWarning,
)
    requires
        spec_warning_line(message, first) == spec_warning_line(message, second),
    ensures
        first == second,
{
    let a = spec_warning_line(message, first);
    let b = spec_warning_line(message, second);
    assert(a.len() == first.name().len() + ": "@.len() + message.len());
    assert(b.len() == second.name().len() + ": "@.len() + message.len());
    assert(first.name() =~= a.subrange(0, first.name().len() as int));
    assert(second.name() =~= b.subrange(0, second.name().len() as int));
    PolarsWarning::lemma_name_determines_category(first, second);
}

/// Hands `message` and `category` to the callback that is active in `slot`
/// (to `fallback` if none is installed), once, and returns when the callback
/// has returned.
pub fn emit<F: Copy + Fn(&str, PolarsWarning)>(
    slot: &WarningSlot<F>,
    fallback: F,
    category: PolarsWarning,
    message: &str,
)
    requires
        call_requires(slot.active(fallback), (message, category)),
    ensures
        call_ensures(slot.active(fallback), (message, category), ()),
{
    let function = get_warning_function(slot, fallback);
    function(message, category)
}

} // verus!
