//! Laws of what follows from the settings: the cursor, other programs and the clipboards.
use crate::config::Config;
use crate::context::ActionContext;
use crate::effect::{Effect, EffectView, Step};
use crate::index::{Direction, Point};
use crate::laws;
use crate::laws::selection;
use crate::search::SearchOutcome;
use crate::term::{ClipboardType, Command, CommandView, TermView};
use vstd::prelude::*;

verus! {

/// The cursor blinks as the settings say, and where they say nothing, as the terminal says. In vi
/// mode the settings for its cursor come first, where there are any.
pub proof fn law_cursor_blinking(config: Config, terminal: bool, b: bool)
    ensures
        config.cursor_blinking == Some(b) ==> crate::context::cursor_blinks(
            config,
            false,
            terminal,
        ) == b,
        config.cursor_blinking is None ==> crate::context::cursor_blinks(config, false, terminal)
            == terminal,
        config.vi_cursor_blinking is None ==> crate::context::cursor_blinks(config, true, terminal)
            == crate::context::cursor_blinks(config, false, terminal),
        config.vi_cursor_blinking == Some(Some(b)) ==> crate::context::cursor_blinks(
            config,
            true,
            terminal,
        ) == b,
        config.vi_cursor_blinking == Some(None::<bool>) ==> crate::context::cursor_blinks(
            config,
            true,
            terminal,
        ) == terminal,
{
}

/// A dragged selection scrolls every 15 milliseconds, and a search that was put off is done half a
/// second after the last key. A child process is read in blocks of 1280 bytes.
pub proof fn law_intervals()
    ensures
        crate::mouse::SELECTION_SCROLLING_INTERVAL == 15,
        crate::search::TYPING_SEARCH_DELAY == 500,
        crate::child_pty::PTY_BUFFER_SIZE == 1280,
{
}

/// A selected text is stored in the clipboard that was named, as it is; an empty one, or none, leaves
/// the clipboard as it is.
pub proof fn law_copied_text(ty: ClipboardType, text: Seq<char>)
    ensures
        text.len() > 0 ==> crate::context::copied(ty, Some(text)) == seq![
            EffectView::StoreClipboard(ty, text),
        ],
        text.len() == 0 ==> crate::context::copied(ty, Some(text)).len() == 0,
        crate::context::copied(ty, None).len() == 0,
{
}

/// An address is opened by the configured program, with its configured arguments and the address
/// behind them.
pub proof fn law_launched_command(launcher: CommandView, address: Seq<char>)
    ensures
        ({
            let command = crate::context::launch_command(launcher, address);
            &&& command.program == launcher.program
            &&& command.args.drop_last() == launcher.args
            &&& command.args.len() == launcher.args.len() + 1
            &&& command.args.last() == address
        }),
{
    assert(crate::context::launch_command(launcher, address).args.drop_last() =~= launcher.args);
}

/// The option that names the working directory.
pub open spec fn directory_option() -> Seq<char> {
    "--working-directory"@
}

/// No argument is the option that names the working directory.
pub open spec fn names_no_directory(args: Seq<Seq<char>>) -> bool {
    forall|i: int| 0 <= i < args.len() ==> #[trigger] args[i] != directory_option()
}

/// Another window gets the directory that it is to work in as its first argument, and the
/// arguments of this one behind it, without a directory that those named. Without a directory it
/// gets the arguments as they are.
pub proof fn law_arguments_of_another_window(args: Seq<Seq<char>>, directory: Seq<char>)
    ensures
        ({
            let given = crate::context::instance_arguments(args, Some(directory));
            &&& given.len() >= 2
            &&& given[0] == directory_option()
            &&& given[1] == directory
            &&& names_no_directory(given.skip(2))
            &&& names_no_directory(args) ==> given.skip(2) == args
        }),
        crate::context::instance_arguments(args, None) == args,
{
    let given = crate::context::instance_arguments(args, Some(directory));
    assert(given.skip(2) =~= crate::context::without_directory(args));
    lemma_no_directory_stays(args);
    if names_no_directory(args) {
        lemma_other_arguments_stay(args, Seq::empty());
        assert(args + Seq::empty() =~= args);
        assert(crate::context::without_directory(Seq::empty()) =~= Seq::<Seq<char>>::empty());
    }
}

/// Only the option and the directory behind it are left out: what stands in front of them stays as
/// it is, and what stands behind is treated in the same way.
pub proof fn law_only_the_directory_is_left_out(
    front: Seq<Seq<char>>,
    directory: Seq<char>,
    back: Seq<Seq<char>>,
)
    requires
        names_no_directory(front),
    ensures
        crate::context::without_directory(front + seq![directory_option(), directory] + back)
            == front + crate::context::without_directory(back),
        crate::context::without_directory(front + seq![directory_option()]) == front,
{
    let rest = seq![directory_option(), directory] + back;
    assert(front + seq![directory_option(), directory] + back =~= front + rest);
    lemma_other_arguments_stay(front, rest);
    assert(rest.skip(2) =~= back);
    lemma_other_arguments_stay(front, seq![directory_option()]);
    assert(front + crate::context::without_directory(seq![directory_option()]) =~= front);
}

proof fn lemma_other_arguments_stay(front: Seq<Seq<char>>, back: Seq<Seq<char>>)
    requires
        names_no_directory(front),
    ensures
        crate::context::without_directory(front + back) == front
            + crate::context::without_directory(back),
    decreases front.len(),
{
    if front.len() == 0 {
        assert(front + back =~= back);
        assert(front + crate::context::without_directory(back)
            =~= crate::context::without_directory(back));
    } else {
        let rest = front.skip(1);
        assert forall|i: int| 0 <= i < rest.len() implies #[trigger] rest[i]
            != directory_option() by {
            assert(rest[i] == front[i + 1]);
        }
        lemma_other_arguments_stay(rest, back);
        assert((front + back).skip(1) =~= rest + back);
        assert((front + back)[0] == front[0]);
        assert(seq![front[0]] + (rest + crate::context::without_directory(back)) =~= front
            + crate::context::without_directory(back));
    }
}

proof fn lemma_no_directory_stays(args: Seq<Seq<char>>)
    ensures
        names_no_directory(crate::context::without_directory(args)),
    decreases args.len(),
{
    if args.len() > 0 {
        if args[0] != directory_option() {
            lemma_no_directory_stays(args.skip(1));
        } else if args.len() > 1 {
            lemma_no_directory_stays(args.skip(2));
        }
    }
}

/// A match that is selected is selected from its first cell to its last, both included.
pub proof fn law_selected_match(term: TermView, searching: bool, end: Point, cell: Point)
    requires
        term.screen_lines >= 1,
        selection::on_screen(term, end, cell),
    ensures
        laws::does(
            crate::context::selection_update(
                crate::context::selecting(term),
                searching,
                end,
                Direction::Right,
            ),
            Step::ExtendSelection(cell, Direction::Right),
        ),
        crate::context::selecting(term).mode == term.mode,
        crate::context::selecting(term).screen_lines == term.screen_lines,
{
    assert(cell == term.clamp_line(end));
    laws::lemma_does(
        crate::context::selection_update(
            crate::context::selecting(term),
            searching,
            end,
            Direction::Right,
        ),
        0,
        Step::ExtendSelection(cell, Direction::Right),
    );
}

/// A step of a search leaves the search and gives the instructions that its outcome says, has the
/// display laid out where the outcome asks for it, and changes nothing else of the context.
pub proof fn law_search_steps(
    before: ActionContext,
    outcome: SearchOutcome,
    after: ActionContext,
    effects: Vec<Effect>,
)
    requires
        before.search_step(outcome, after, effects),
    ensures
        after.search_state@ == outcome.state,
        crate::effect::values(effects) == outcome.effects,
        outcome.redisplay ==> after.display_update_pending,
        !outcome.redisplay ==> after.display_update_pending == before.display_update_pending,
        after.mouse == before.mouse,
        after.modifiers == before.modifiers,
        after.received_count == before.received_count,
        after.suppress_chars == before.suppress_chars,
        after.cursor_hidden == before.cursor_hidden,
        after.font_size == before.font_size,
        after.config == before.config,
{
}

/// The value of an instruction is what it holds, and a list has the values of its instructions in
/// order.
pub proof fn law_values_of_instructions(effects: Vec<Effect>, command: Command)
    ensures
        crate::effect::values(effects).len() == effects@.len(),
        forall|i: int|
            0 <= i < effects@.len() ==> match effects@[i] {
                Effect::WriteToPty(bytes) => (#[trigger] crate::effect::values(effects)[i])
                    == EffectView::WriteToPty(bytes@),
                Effect::StoreClipboard(ty, text) => crate::effect::values(effects)[i]
                    == EffectView::StoreClipboard(ty, text@),
                Effect::StartTerminalSearch(text) => crate::effect::values(effects)[i]
                    == EffectView::StartTerminalSearch(text@),
                Effect::SetTitle(title) => crate::effect::values(effects)[i]
                    == EffectView::SetTitle(title@),
                Effect::StartDaemon(daemon) => crate::effect::values(effects)[i]
                    == EffectView::StartDaemon(daemon.deep_view()),
                Effect::ReloadConfig(path) => crate::effect::values(effects)[i]
                    == EffectView::ReloadConfig(path@),
                Effect::Do(step) => crate::effect::values(effects)[i] == EffectView::Do(step),
            },
        command.deep_view().program == command.program@,
        command.deep_view().args.len() == command.args@.len(),
        forall|i: int|
            0 <= i < command.args@.len() ==> #[trigger] command.deep_view().args[i]
                == command.args@[i]@,
{
}

} // verus!
