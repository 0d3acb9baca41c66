//! What is shown, and what is asked for to show it.

use crate::action::ActionView;
use crate::data::{DataView, EditableLineTag};
use crate::flags::Flag;
use crate::highlight::HighlightSpec;
use crate::paint::{FinalHighlight, ScreenState};
use crate::suggestion::ResultView;
use crate::suggestion_laws::law_prefixes;
use vstd::prelude::*;

verus! {

/// Suggestions are made where they are wanted, not held off, no old command is shown, the command
/// line is edited, and something other than blanks is in it.
pub open spec fn wants_suggestion(d: DataView) -> bool {
    &&& d.conf.autosuggest_ok
    &&& !d.is(Flag::SuppressAutosuggestion)
    &&& d.search.index == 0
    &&& d.active_tag() == EditableLineTag::Commandline
    &&& exists|i: int|
        0 <= i < d.command_line.text.len() && (#[trigger] d.command_line.text[i]) != ' '
            && d.command_line.text[i] != '\t' && d.command_line.text[i] != '\r'
            && d.command_line.text[i] != '\n' && d.command_line.text[i] != '\x0B'
}

/// Where a suggestion is wanted and there is none for the line of the cursor, it is asked for once,
/// for the text and the cursor as they are. Where none is wanted, none is left.
pub proof fn law_suggestion_is_asked_for(d: DataView)
    ensures
        ({
            let next = d.suggestion_refreshed();
            let text = d.command_line.text;
            let asked = ActionView::Autosuggest {
                command_line: text,
                position: d.command_line.position,
            };
            &&& !wants_suggestion(d) ==> next.autosuggestion.text.len() == 0
                && next.in_flight_autosuggest.len() == 0 && next.actions == d.actions
            &&& wants_suggestion(d) && d.at_line_with_suggestion() ==> next == d
            &&& wants_suggestion(d) && d.in_flight_autosuggest == text ==> next == d
            &&& wants_suggestion(d) && !d.at_line_with_suggestion() && d.in_flight_autosuggest
                != text ==> next.actions == d.actions.push(asked) && next.in_flight_autosuggest
                == text && next.autosuggestion.text.len() == 0
            &&& next.command_line == d.command_line
        }),
{
    assert(d.can_autosuggest() <==> wants_suggestion(d));
}

/// A suggestion that arrives is taken only if it was made for the text that is in the command line,
/// continues what it stands for there, and is still wanted.
pub proof fn law_suggestion_arrives(d: DataView, result: ResultView, screen: ScreenState)
    requires
        !result.suggestion.icase,
    ensures
        ({
            let next = d.suggestion_arrived(result, false, screen);
            let s = result.suggestion;
            let fits = result.command_line == d.command_line.text && s.text.len() > 0
                && wants_suggestion(d) && d.command_line.text.subrange(
                s.range.start,
                s.range.end,
            ).is_prefix_of(s.text);
            &&& fits ==> next.autosuggestion == s
            &&& !fits ==> next.autosuggestion == d.autosuggestion && next.actions == d.actions
            &&& next.command_line == d.command_line
            &&& result.command_line == d.in_flight_autosuggest
                ==> next.in_flight_autosuggest.len() == 0
            &&& result.command_line != d.in_flight_autosuggest ==> next.in_flight_autosuggest
                == d.in_flight_autosuggest
        }),
{
    assert(d.can_autosuggest() <==> wants_suggestion(d));
    let s = result.suggestion;
    law_prefixes(d.command_line.text.subrange(s.range.start, s.range.end), s.text);
}

/// Colors are asked for once for each text, and only taken for the text that they were made for.
pub proof fn law_colors_arrive(
    d: DataView,
    text: Seq<char>,
    colors: Seq<HighlightSpec>,
    screen: ScreenState,
)
    ensures
        ({
            let asked = d.highlighting();
            let next = d.highlighted(text, colors, screen);
            let line = d.command_line;
            &&& d.conf.highlight_ok && d.in_flight_highlight != line.text ==> asked.actions
                == d.actions.push(
                ActionView::Highlight { command_line: line.text, position: line.position },
            ) && asked.in_flight_highlight == line.text
            &&& !d.conf.highlight_ok || d.in_flight_highlight == line.text ==> asked == d
            &&& text != line.text ==> next.command_line == line && next.actions == d.actions
            &&& text == line.text && colors != d.rendered.colors ==> next.command_line.colors
                == colors && next.actions.len() == d.actions.len() + 1
            &&& next.command_line.text == line.text
            &&& next.in_flight_highlight.len() == 0
        }),
{
}

/// At the end, colors that are on their way for the text are waited for; a text that has none is
/// colored without looking at files; one that was shown with its colors stays.
pub proof fn law_final_colors(d: DataView)
    ensures
        ({
            let text = d.command_line.text;
            let how = d.final_highlight();
            let on_its_way = d.in_flight_highlight.len() > 0;
            &&& !d.conf.highlight_ok ==> how == FinalHighlight::Done
            &&& d.conf.highlight_ok && on_its_way && d.in_flight_highlight == text ==> how
                == FinalHighlight::Wait
            &&& d.conf.highlight_ok && on_its_way && d.in_flight_highlight != text ==> how
                == FinalHighlight::WithoutIo
            &&& d.conf.highlight_ok && !on_its_way && d.rendered.text == text ==> how
                == FinalHighlight::Done
            &&& d.conf.highlight_ok && !on_its_way && d.rendered.text != text ==> how
                == FinalHighlight::WithoutIo
        }),
{
}

/// What is on the screen is out of date if the text, the cursor, the selection, the suggestion or a
/// prompt is another one than was painted last. Painting brings it up to date.
pub proof fn law_changes_are_painted(d: DataView, screen: ScreenState)
    ensures
        ({
            let line = d.command_line;
            let differs = line.text != d.rendered.text || line.position != d.rendered.position
                || d.selection != d.rendered.selection || d.autosuggestion.text
                != d.rendered.autosuggestion || d.left_prompt != d.rendered.left_prompt
                || d.right_prompt != d.rendered.right_prompt || d.mode_prompt
                != d.rendered.mode_prompt || d.is(Flag::ForceExecPromptAndRepaint)
                || screen.pager_needs_update;
            let next = d.repainted_if_stale(screen);
            &&& differs ==> next.actions.len() == d.actions.len() + 1 && next.actions.last() is Paint
            &&& differs ==> next.rendered.text == line.text && next.rendered.position
                == line.position && next.rendered.autosuggestion == d.autosuggestion.text
                && next.rendered.left_prompt == d.left_prompt && next.rendered.right_prompt
                == d.right_prompt && next.rendered.mode_prompt == d.mode_prompt
            &&& next.command_line == line
        }),
{
}

} // verus!
