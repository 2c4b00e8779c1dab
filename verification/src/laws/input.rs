//! Laws of keys, typed characters, pasted text and clicks.
use crate::bindings::{Binding, BindingMode, Key};
use crate::config::Config;
use crate::context::ActionContext;
use crate::effect::{BindingKind, EffectView, Step};
use crate::laws;
use crate::term::{
    ClipboardType, ElementState, HostView, KeyboardInput, ModifiersState, MouseButton, Scroll,
    TermMode,
};
use vstd::prelude::*;

verus! {

/// Each part of the state that a binding wants is on, and none of those that it excludes.
pub open spec fn state_suits<T>(binding: Binding<T>, mode: TermMode, searching: bool) -> bool {
    &&& binding.mode.app_cursor ==> mode.app_cursor
    &&& binding.mode.app_keypad ==> mode.app_keypad
    &&& binding.mode.alt_screen ==> mode.alt_screen
    &&& binding.mode.vi ==> mode.vi
    &&& binding.mode.search ==> searching
    &&& binding.notmode.app_cursor ==> !mode.app_cursor
    &&& binding.notmode.app_keypad ==> !mode.app_keypad
    &&& binding.notmode.alt_screen ==> !mode.alt_screen
    &&& binding.notmode.vi ==> !mode.vi
    &&& binding.notmode.search ==> !searching
}

/// A binding of a key is meant by the key that was pressed: by its place on the keyboard or by its
/// meaning, whichever the binding names.
pub open spec fn key_suits(trigger: Key, input: KeyboardInput) -> bool {
    match trigger {
        Key::Scancode(code) => code == input.scancode,
        Key::Keycode(code) => input.virtual_keycode == Some(code),
    }
}

proof fn lemma_steps(kind: BindingKind, run: Seq<usize>)
    ensures
        crate::keys::binding_steps(kind, run).len() == run.len(),
        forall|j: int|
            0 <= j < run.len() ==> #[trigger] crate::keys::binding_steps(kind, run)[j]
                == EffectView::Do(Step::RunBinding(kind, run[j])),
    decreases run.len(),
{
    if run.len() > 0 {
        lemma_steps(kind, run.drop_last());
    }
}

/// A key runs a binding exactly where the key is the one that the binding names, the held keys are
/// exactly those that it wants, and the state suits.
pub proof fn law_key_runs_its_bindings(
    binding: Binding<Key>,
    mode: TermMode,
    searching: bool,
    mods: ModifiersState,
    input: KeyboardInput,
)
    ensures
        crate::keys::key_runs(binding, BindingMode::spec_new(mode, searching), mods, input)
            <==> key_suits(binding.trigger, input) && binding.mods == mods && state_suits(
            binding,
            mode,
            searching,
        ),
{
}

/// A button runs a binding exactly where it is the one that the binding names, the held keys are
/// those that it wants, and the state suits. While a program gets the mouse, Shift has to be held as
/// well.
pub proof fn law_button_runs_its_bindings(
    binding: Binding<MouseButton>,
    mode: TermMode,
    searching: bool,
    mods: ModifiersState,
    button: MouseButton,
)
    ensures
        crate::keys::button_runs(binding, mode, searching, mods, button) <==> {
            &&& binding.trigger == button
            &&& state_suits(binding, mode, searching)
            &&& mods.ctrl == binding.mods.ctrl
            &&& mods.alt == binding.mods.alt
            &&& mods.logo == binding.mods.logo
            &&& mods.shift == (binding.mods.shift || (mode.mouse_mode && !mode.vi))
        },
{
}

/// A pressed key runs all bindings that it is meant by, and no other, in the order of the settings.
pub proof fn law_pressed_key_runs_all(
    ctx: ActionContext,
    input: KeyboardInput,
    mode: TermMode,
    host: HostView,
    i: usize,
)
    requires
        input.state is Pressed,
    ensures
        ({
            let bindings = ctx.config.key_bindings@;
            let effects = crate::keys::key_effects(ctx, input, mode, host);
            let searching = ctx.search_state@.regex is Some;
            &&& laws::does(effects, Step::RunBinding(BindingKind::Key, i)) <==> {
                &&& i < bindings.len()
                &&& key_suits(bindings[i as int].trigger, input)
                &&& bindings[i as int].mods == ctx.modifiers
                &&& state_suits(bindings[i as int], mode, searching)
            }
            &&& forall|j: int, k: int|
                0 <= j < k < effects.len() && #[trigger] effects[j] is Do && (
                #[trigger] effects[k]) is Do ==> (effects[j]->Do_0 matches Step::RunBinding(
                    _,
                    a,
                ) ==> effects[k]->Do_0 matches Step::RunBinding(_, b) && a < b)
        }),
{
    let bindings = ctx.config.key_bindings@;
    let mode_now = BindingMode::spec_new(mode, ctx.searching());
    let wanted = |i: int| crate::keys::key_runs(bindings[i], mode_now, ctx.modifiers, input);
    assert(ctx.config.key_bindings.len() == bindings.len());
    crate::keys::law_chosen_is_all_wanted(wanted, bindings.len());
    let run = crate::keys::run_by_key(ctx, input, mode);
    assert(run == crate::keys::chosen(wanted, bindings.len()));
    lemma_steps(BindingKind::Key, run);
    let effects = crate::keys::key_effects(ctx, input, mode, host);
    let steps = crate::keys::binding_steps(BindingKind::Key, run);
    let first = effects.len() - steps.len();
    assert(forall|j: int| 0 <= j < steps.len() ==> effects[first + j] == #[trigger] steps[j]);
    if i < bindings.len() && wanted(i as int) {
        let j = choose|j: int| 0 <= j < run.len() && run[j] == i;
        assert(steps[j] == EffectView::Do(Step::RunBinding(BindingKind::Key, i)));
        laws::lemma_does(effects, first + j, Step::RunBinding(BindingKind::Key, i));
    }
    if laws::does(effects, Step::RunBinding(BindingKind::Key, i)) {
        let at = choose|at: int|
            0 <= at < effects.len() && effects[at] == EffectView::Do(
                Step::RunBinding(BindingKind::Key, i),
            );
        assert(effects[at] == steps[at - first]);
        assert(run[at - first] == i);
        assert(wanted(i as int));
    }
    assert forall|j: int, k: int|
        0 <= j < k < effects.len() && #[trigger] effects[j] is Do && (#[trigger] effects[k])
            is Do implies (effects[j]->Do_0 matches Step::RunBinding(_, a)
        ==> effects[k]->Do_0 matches Step::RunBinding(_, b) && a < b) by {
        if j >= first {
            assert(effects[j] == steps[j - first]);
            assert(effects[k] == steps[k - first]);
            assert(run[j - first] < run[k - first]);
        }
    }
}

/// While a search is on and one more is due later, a key puts that off; this is all that the release
/// of a key does.
pub proof fn law_keys_put_the_search_off(
    ctx: ActionContext,
    input: KeyboardInput,
    mode: TermMode,
    host: HostView,
)
    ensures
        ({
            let effects = crate::keys::key_effects(ctx, input, mode, host);
            let due = ctx.search_state@.regex is Some && host.delayed_search_scheduled;
            &&& due ==> effects.len() > 0 && effects[0] == EffectView::Do(
                Step::PostponeDelayedSearch,
            )
            &&& !due ==> !laws::does(effects, Step::PostponeDelayedSearch)
            &&& input.state is Released ==> effects.len() == laws::one_if(due)
            &&& laws::writes_nothing(effects)
        }),
{
    lemma_steps(BindingKind::Key, crate::keys::run_by_key(ctx, input, mode));
}

/// The characters of a key are held back exactly where the key ran a binding, and none of those that
/// it ran lets them through. A new key counts its characters from none; a released key holds none
/// back.
pub proof fn law_keys_hold_characters_back(
    ctx: ActionContext,
    input: KeyboardInput,
    mode: TermMode,
)
    ensures
        ({
            let after = crate::keys::context_after_key(ctx, input, mode);
            let run = crate::keys::run_by_key(ctx, input, mode);
            &&& input.state is Released ==> !after.suppress_chars && after.received_count
                == ctx.received_count
            &&& input.state is Pressed ==> after.received_count == 0
            &&& input.state is Pressed && run.len() == 0 ==> !after.suppress_chars
            &&& input.state is Pressed && run.len() > 0 ==> (after.suppress_chars <==> forall|j: int|
                0 <= j < run.len() ==> !(ctx.config.key_bindings@[(
                #[trigger] run[j]) as int].action is ReceiveChar))
            &&& after == (ActionContext {
                suppress_chars: after.suppress_chars,
                received_count: after.received_count,
                ..ctx
            })
        }),
{
}

/// A character that is typed reaches the program: the view goes to the bottom, the selection is
/// dropped, and the bytes of the character are written last.
pub proof fn law_typed_character_is_written(
    ctx: ActionContext,
    c: char,
    mode: TermMode,
    host: HostView,
)
    requires
        !mode.vi,
        ctx.search_state@.regex is None,
        !ctx.suppress_chars,
    ensures
        ({
            let effects = crate::keys::char_effects(ctx, c, mode, host);
            let n = effects.len();
            let bytes = vstd::utf8::encode_utf8(seq![c]);
            let escaped = ctx.config.alt_send_esc && ctx.modifiers.alt && ctx.received_count == 0
                && bytes.len() == 1;
            &&& n >= 4
            &&& laws::does(effects, Step::Scroll(Scroll::Bottom))
            &&& laws::does(effects, Step::DropSelection)
            &&& laws::does(effects, Step::MarkDirty)
            &&& !escaped ==> effects[n - 1] == EffectView::WriteToPty(bytes)
            &&& escaped ==> effects[n - 1] == EffectView::WriteToPty(seq![0x1bu8, bytes[0]])
            &&& laws::writes_nothing(effects.drop_last())
            &&& effects.take(n - 4) == crate::context::typing_effects(
                ctx.config,
                host.blink_scheduled,
            )
            &&& crate::keys::context_after_char(ctx, mode, host).received_count
                == (ctx.received_count + 1) as usize
        }),
{
    let effects = crate::keys::char_effects(ctx, c, mode, host);
    let n = effects.len();
    let bytes = vstd::utf8::encode_utf8(seq![c]);
    laws::lemma_does(effects, n - 4, Step::Scroll(Scroll::Bottom));
    laws::lemma_does(effects, n - 3, Step::DropSelection);
    laws::lemma_does(effects, n - 2, Step::MarkDirty);
    assert(effects.take(n - 4) =~= crate::context::typing_effects(
        ctx.config,
        host.blink_scheduled,
    ));
    if bytes.len() == 1 {
        assert(seq![0x1bu8] + bytes =~= seq![0x1bu8, bytes[0]]);
    }
}

/// In a search a character is part of the text that is searched for, unless it is held back; in vi
/// mode without a search it does nothing. Neither counts.
pub proof fn law_character_in_a_search(ctx: ActionContext, c: char, mode: TermMode, host: HostView)
    ensures
        ctx.search_state@.regex is Some && !ctx.suppress_chars ==> crate::keys::char_effects(
            ctx,
            c,
            mode,
            host,
        ) == seq![EffectView::Do(Step::SearchInput(c))],
        ctx.suppress_chars ==> crate::keys::char_effects(ctx, c, mode, host).len() == 0,
        mode.vi && ctx.search_state@.regex is None ==> crate::keys::char_effects(
            ctx,
            c,
            mode,
            host,
        ).len() == 0,
        ctx.suppress_chars || mode.vi || ctx.search_state@.regex is Some
            ==> crate::keys::context_after_char(ctx, mode, host) == ctx,
{
}

/// Typing shows a blinking cursor for a whole interval from then on, and hides the pointer where the
/// settings say so.
pub proof fn law_typing_shows_the_cursor(config: Config, blinking: bool)
    ensures
        ({
            let effects = crate::context::typing_effects(config, blinking);
            &&& laws::does(effects, Step::PostponeBlink(config.blink_interval)) <==> blinking
            &&& laws::does(effects, Step::MarkDirty) <==> blinking
            &&& laws::does(effects, Step::SetMouseVisible(false)) <==> config.hide_when_typing
            &&& laws::writes_nothing(effects)
            &&& effects.len() == 2 * laws::one_if(blinking) + laws::one_if(config.hide_when_typing)
        }),
{
    let effects = crate::context::typing_effects(config, blinking);
    if blinking {
        laws::lemma_does(effects, 0, Step::PostponeBlink(config.blink_interval));
        laws::lemma_does(effects, 1, Step::MarkDirty);
    }
    if config.hide_when_typing {
        laws::lemma_does(effects, effects.len() - 1, Step::SetMouseVisible(false));
    }
}

/// A typed character shows the cursor where it blinks, and leaves it as it is where it does not.
pub proof fn law_typed_character_shows_the_cursor(ctx: ActionContext, mode: TermMode, host: HostView)
    requires
        !mode.vi,
        ctx.search_state@.regex is None,
        !ctx.suppress_chars,
    ensures
        host.blink_scheduled ==> !crate::keys::context_after_char(ctx, mode, host).cursor_hidden,
        !host.blink_scheduled ==> crate::keys::context_after_char(ctx, mode, host).cursor_hidden
            == ctx.cursor_hidden,
{
}

/// Text pasted into a search is typed into it, character by character and in order.
pub proof fn law_text_pasted_into_a_search(contents: Seq<char>, bracketed: bool)
    ensures
        ({
            let effects = crate::keys::paste_effects(contents, true, bracketed);
            &&& effects.len() == contents.len()
            &&& forall|i: int|
                0 <= i < contents.len() ==> #[trigger] effects[i] == EffectView::Do(
                    Step::SearchInput(contents[i]),
                )
        }),
{
    lemma_search_inputs(contents);
}

proof fn lemma_search_inputs(contents: Seq<char>)
    ensures
        crate::keys::search_inputs(contents).len() == contents.len(),
        forall|i: int|
            0 <= i < contents.len() ==> #[trigger] crate::keys::search_inputs(contents)[i]
                == EffectView::Do(Step::SearchInput(contents[i])),
    decreases contents.len(),
{
    if contents.len() > 0 {
        lemma_search_inputs(contents.drop_last());
        lemma_one_more_input(
            crate::keys::search_inputs(contents.drop_last()),
            contents.last(),
        );
    }
}

proof fn lemma_one_more_input(before: Seq<EffectView>, c: char)
    ensures
        ({
            let after = before.push(EffectView::Do(Step::SearchInput(c)));
            &&& after.len() == before.len() + 1
            &&& forall|i: int| 0 <= i < before.len() ==> #[trigger] after[i] == before[i]
            &&& after[before.len() as int] == EffectView::Do(Step::SearchInput(c))
        }),
{
}

/// A program that asked for it can tell pasted text from typed text: the text stands between two
/// marks that differ, and is otherwise unchanged where it holds no escape.
pub proof fn law_pasted_text_is_marked(contents: Seq<char>)
    ensures
        ({
            let effects = crate::keys::paste_effects(contents, false, true);
            let bytes = vstd::utf8::encode_utf8(contents);
            &&& effects.len() == 3
            &&& effects[0] == EffectView::WriteToPty(
                seq![0x1bu8, 0x5bu8, 0x32u8, 0x30u8, 0x30u8, 0x7eu8],
            )
            &&& effects[2] == EffectView::WriteToPty(
                seq![0x1bu8, 0x5bu8, 0x32u8, 0x30u8, 0x31u8, 0x7eu8],
            )
            &&& !bytes.contains(0x1b) ==> effects[1] == EffectView::WriteToPty(bytes)
        }),
{
    let bytes = vstd::utf8::encode_utf8(contents);
    if !bytes.contains(0x1b) {
        assert forall|i: int| 0 <= i < bytes.len() implies bytes[i] != 0x1b by {
            assert(bytes.contains(bytes[i]));
        }
        lemma_nothing_to_drop(bytes);
    }
}

proof fn lemma_nothing_to_drop(bytes: Seq<u8>)
    requires
        forall|i: int| 0 <= i < bytes.len() ==> bytes[i] != 0x1b,
    ensures
        crate::text::without_escapes(bytes) == bytes,
    decreases bytes.len(),
{
    reveal(Seq::filter);
    if bytes.len() > 0 {
        lemma_nothing_to_drop(bytes.drop_last());
        assert(bytes =~= bytes.drop_last().push(bytes.last()));
    }
}

/// Only the escapes are dropped from pasted text: what comes before and behind one stays, in order.
pub proof fn law_only_escapes_are_dropped(front: Seq<u8>, back: Seq<u8>)
    ensures
        crate::text::without_escapes(front + back) == crate::text::without_escapes(front)
            + crate::text::without_escapes(back),
        crate::text::without_escapes(front.push(0x1b)) == crate::text::without_escapes(front),
        forall|b: u8|
            b != 0x1b ==> #[trigger] crate::text::without_escapes(front.push(b))
                == crate::text::without_escapes(front).push(b),
{
    reveal(Seq::filter);
    front.lemma_filter_len(|b: u8| b != 0x1b);
    Seq::filter_distributes_over_add(front, back, |b: u8| b != 0x1b);
    assert(front.push(0x1b).drop_last() =~= front);
    assert forall|b: u8| b != 0x1b implies #[trigger] crate::text::without_escapes(front.push(b))
        == crate::text::without_escapes(front).push(b) by {
        assert(front.push(b).drop_last() =~= front);
    }
}

/// Text that is pasted without marks is written at once, with every line break as the key for it
/// would give it: a line feed, alone or behind a carriage return, becomes one carriage return.
pub proof fn law_pasted_line_breaks(contents: Seq<char>, front: Seq<u8>, b: u8)
    requires
        b != 0x0a,
    ensures
        crate::keys::paste_effects(contents, false, false) == seq![
            EffectView::WriteToPty(
                crate::text::typed_line_breaks(vstd::utf8::encode_utf8(contents)),
            ),
        ],
        crate::text::typed_line_breaks(front.push(b)) == crate::text::typed_line_breaks(front).push(
            b,
        ),
        b != 0x0d ==> crate::text::typed_line_breaks(front.push(b).push(0x0a))
            == crate::text::typed_line_breaks(front).push(b).push(0x0d),
        crate::text::typed_line_breaks(front.push(0x0d).push(0x0a))
            == crate::text::typed_line_breaks(front).push(0x0d),
        crate::text::typed_line_breaks(front.push(0x0a).push(0x0a))
            == crate::text::typed_line_breaks(front.push(0x0a)).push(0x0d),
        crate::text::typed_line_breaks(seq![0x0au8]) == seq![0x0du8],
        crate::text::typed_line_breaks(Seq::empty()) == Seq::<u8>::empty(),
{
    reveal_with_fuel(crate::text::typed_line_breaks, 3);
    assert(front.push(b).drop_last() =~= front);
    assert(front.push(0x0d).drop_last() =~= front);
    assert(front.push(b).push(0x0a).drop_last() =~= front.push(b));
    assert(front.push(0x0d).push(0x0a).drop_last() =~= front.push(0x0d));
    assert(front.push(0x0a).push(0x0a).drop_last() =~= front.push(0x0a));
    assert(seq![0x0au8].drop_last() =~= Seq::<u8>::empty());
    assert(crate::text::typed_line_breaks(Seq::empty()) =~= Seq::<u8>::empty());
}

/// A press away from the bars runs the bindings of its button, in the order of the settings, and
/// then clicks; a release only releases.
pub proof fn law_clicks_on_the_text(
    ctx: ActionContext,
    button: MouseButton,
    mode: TermMode,
)
    ensures
        ({
            let pressed = crate::input::grid_click(ctx, button, ElementState::Pressed, mode);
            let released = crate::input::grid_click(ctx, button, ElementState::Released, mode);
            let run = crate::input::run_by_button(ctx, button, mode);
            &&& pressed.len() > run.len()
            &&& forall|j: int|
                0 <= j < run.len() ==> #[trigger] pressed[j] == EffectView::Do(
                    Step::RunBinding(BindingKind::Mouse, run[j]),
                )
            &&& pressed[run.len() as int] == EffectView::Do(Step::MousePress(button))
            &&& released.len() > 0 && released[0] == EffectView::Do(Step::MouseRelease(button))
            &&& !laws::does(released, Step::MousePress(button))
            &&& !laws::does(pressed, Step::MouseRelease(button))
        }),
{
    lemma_steps(BindingKind::Mouse, crate::input::run_by_button(ctx, button, mode));
}

/// A pressed button runs all mouse bindings that it is meant by, and no other.
pub proof fn law_pressed_button_runs_all(
    ctx: ActionContext,
    button: MouseButton,
    mode: TermMode,
    i: usize,
)
    ensures
        ({
            let bindings = ctx.config.mouse_bindings@;
            let run = crate::input::run_by_button(ctx, button, mode);
            let searching = ctx.search_state@.regex is Some;
            &&& run.contains(i) <==> {
                &&& i < bindings.len()
                &&& bindings[i as int].trigger == button
                &&& state_suits(bindings[i as int], mode, searching)
                &&& ctx.modifiers.ctrl == bindings[i as int].mods.ctrl
                &&& ctx.modifiers.alt == bindings[i as int].mods.alt
                &&& ctx.modifiers.logo == bindings[i as int].mods.logo
                &&& ctx.modifiers.shift == (bindings[i as int].mods.shift || (mode.mouse_mode
                    && !mode.vi))
            }
            &&& forall|j: int, k: int|
                0 <= j < k < run.len() ==> #[trigger] run[j] < #[trigger] run[k]
        }),
{
    let bindings = ctx.config.mouse_bindings@;
    let wanted = |i: int|
        crate::keys::button_runs(bindings[i], mode, ctx.searching(), ctx.modifiers, button);
    assert(ctx.config.mouse_bindings.len() == bindings.len());
    crate::keys::law_chosen_is_all_wanted(wanted, bindings.len());
    let run = crate::input::run_by_button(ctx, button, mode);
    assert(run == crate::keys::chosen(wanted, bindings.len()));
    if i < bindings.len() {
        law_button_runs_its_bindings(
            bindings[i as int],
            mode,
            ctx.searching(),
            ctx.modifiers,
            button,
        );
        if wanted(i as int) {
            assert(run.contains(i));
        }
    }
    if run.contains(i) {
        let j = choose|j: int| 0 <= j < run.len() && run[j] == i;
        assert(run[j] < bindings.len() && wanted(run[j] as int));
    }
}

/// With the logo key held, the left button looks for the word that it is on, and with Alt held its
/// release copies the selection and drops it. No other button does, and neither without the key.
pub proof fn law_clicks_with_held_keys(
    ctx: ActionContext,
    button: MouseButton,
    state: ElementState,
    mode: TermMode,
)
    ensures
        ({
            let effects = crate::input::grid_click(ctx, button, state, mode);
            let copy = Step::CopySelection(ClipboardType::Selection);
            let copies = button is Left && ctx.modifiers.alt && state is Released;
            &&& laws::does(effects, Step::FindWord(state)) <==> button is Left && ctx.modifiers.logo
            &&& laws::does(effects, copy) <==> copies
            &&& laws::does(effects, Step::DropSelection) <==> copies
            &&& copies ==> effects.len() >= 3 && effects[effects.len() - 3] == EffectView::Do(copy)
        }),
{
    let effects = crate::input::grid_click(ctx, button, state, mode);
    let run = crate::input::run_by_button(ctx, button, mode);
    lemma_steps(BindingKind::Mouse, run);
    let n = effects.len();
    let copies = button is Left && ctx.modifiers.alt && state is Released;
    if copies {
        laws::lemma_does(effects, n - 3, Step::CopySelection(ClipboardType::Selection));
        laws::lemma_does(effects, n - 2, Step::DropSelection);
    }
    if button is Left && ctx.modifiers.logo {
        laws::lemma_does(
            effects,
            if copies {
                n - 4
            } else {
                n - 1
            },
            Step::FindWord(state),
        );
    }
}

/// A click that is neither on a tab nor on the button of a message is a click on the text, and has
/// the size of the display stay as it is.
pub proof fn law_clicks_away_from_the_bars(
    ctx: ActionContext,
    button: MouseButton,
    state: ElementState,
    mode: TermMode,
    host: HostView,
)
    requires
        ctx.mouse.line.0 != 0 || state is Released,
        crate::mouse::bar_state(ctx.mouse, ctx.search_state@.regex is Some, host) is None,
    ensures
        crate::input::click_effects(ctx, button, state, mode, host) == crate::input::grid_click(
            ctx,
            button,
            state,
            mode,
        ),
        crate::input::context_after_click(ctx, button, state, host) == (ActionContext {
            mouse: crate::input::with_button(ctx.mouse, button, state),
            ..ctx
        }),
{
}

} // verus!
