//! Handle input from the keyboard.
use crate::bindings::{Binding, BindingMode, Key};
use crate::context;
use crate::context::ActionContext;
use crate::effect;
use crate::effect::{BindingKind, Effect, EffectView, Step};
use crate::input::Processor;
use crate::term::{
    ElementState, HostView, KeyboardInput, ModifiersState, MouseButton, Scroll, TermMode,
};
use crate::text;
use vstd::prelude::*;

verus! {

/// The numbers below `n` for which `wanted` holds, in order.
pub open spec fn chosen(wanted: spec_fn(int) -> bool, n: nat) -> Seq<usize>
    decreases n,
{
    if n == 0 {
        Seq::empty()
    } else {
        let before = chosen(wanted, (n - 1) as nat);
        if wanted(n - 1) {
            before.push((n - 1) as usize)
        } else {
            before
        }
    }
}

/// The key as a binding asks for it: by its place where the binding names a place, else by its
/// meaning, where it has one.
pub open spec fn key_for(trigger: Key, input: KeyboardInput) -> Option<Key> {
    match trigger {
        Key::Scancode(_) => Some(Key::Scancode(input.scancode)),
        Key::Keycode(_) => match input.virtual_keycode {
            Some(key) => Some(Key::Keycode(key)),
            None => None,
        },
    }
}

/// A key runs the action of a binding.
pub open spec fn key_runs(
    binding: Binding<Key>,
    mode: BindingMode,
    mods: ModifiersState,
    input: KeyboardInput,
) -> bool {
    let key = key_for(binding.trigger, input);
    key is Some && binding.triggered(mode, mods, key->0)
}

/// The bindings that a key runs.
pub open spec fn bindings_of_key(
    bindings: Seq<Binding<Key>>,
    mode: BindingMode,
    mods: ModifiersState,
    input: KeyboardInput,
) -> Seq<usize> {
    chosen(|i: int| key_runs(bindings[i], mode, mods, input), bindings.len())
}

/// A character is not typed where its key ran actions, and none of them lets it pass.
pub open spec fn suppresses(bindings: Seq<Binding<Key>>, run: Seq<usize>) -> bool {
    &&& run.len() > 0
    &&& forall|j: int| 0 <= j < run.len() ==> !(bindings[(#[trigger] run[j]) as int].action
        is ReceiveChar)
}

/// A button runs the action of a binding. Shift is required where a program receives the mouse.
pub open spec fn button_runs(
    binding: Binding<MouseButton>,
    mode: TermMode,
    searching: bool,
    mods: ModifiersState,
    button: MouseButton,
) -> bool {
    let required = ModifiersState {
        shift: binding.mods.shift || mode.reports_mouse(),
        ..binding.mods
    };
    (Binding { mods: required, ..binding }).triggered(
        BindingMode::spec_new(mode, searching),
        mods,
        button,
    )
}

/// The bindings that a button of the mouse runs.
pub open spec fn bindings_of_button(
    bindings: Seq<Binding<MouseButton>>,
    mode: TermMode,
    searching: bool,
    mods: ModifiersState,
    button: MouseButton,
) -> Seq<usize> {
    chosen(|i: int| button_runs(bindings[i], mode, searching, mods, button), bindings.len())
}

/// The bindings that a key runs in the state as it is.
pub open spec fn run_by_key(ctx: ActionContext, input: KeyboardInput, mode: TermMode) -> Seq<
    usize,
> {
    bindings_of_key(
        ctx.config.key_bindings@,
        BindingMode::spec_new(mode, ctx.searching()),
        ctx.modifiers,
        input,
    )
}

/// Bindings are run one by one.
pub open spec fn binding_steps(kind: BindingKind, run: Seq<usize>) -> Seq<EffectView>
    decreases run.len(),
{
    if run.len() == 0 {
        Seq::empty()
    } else {
        binding_steps(kind, run.drop_last()).push(effect::act(Step::RunBinding(kind, run.last())))
    }
}

/// What a key sets off: a search that is due later waits again, and the bindings of a key that is
/// pressed are run.
pub open spec fn key_effects(
    ctx: ActionContext,
    input: KeyboardInput,
    mode: TermMode,
    host: HostView,
) -> Seq<EffectView> {
    (if ctx.searching() && host.delayed_search_scheduled {
        seq![effect::act(Step::PostponeDelayedSearch)]
    } else {
        Seq::empty()
    }) + (if input.state is Pressed {
        binding_steps(BindingKind::Key, run_by_key(ctx, input, mode))
    } else {
        Seq::empty()
    })
}

/// The state after a key: characters are counted from the press on, and held back until the
/// release where bindings say so.
pub open spec fn context_after_key(
    ctx: ActionContext,
    input: KeyboardInput,
    mode: TermMode,
) -> ActionContext {
    if input.state is Pressed {
        ActionContext {
            received_count: 0,
            suppress_chars: suppresses(
                ctx.config.key_bindings@,
                run_by_key(ctx, input, mode),
            ),
            ..ctx
        }
    } else {
        ActionContext { suppress_chars: false, ..ctx }
    }
}

/// The state after a character: one that is typed is counted, and shows the cursor.
pub open spec fn context_after_char(ctx: ActionContext, mode: TermMode, host: HostView) ->
    ActionContext {
    if typed(ctx, mode) {
        ActionContext {
            cursor_hidden: ctx.cursor_hidden && !host.blink_scheduled,
            received_count: (ctx.received_count + 1) as usize,
            ..ctx
        }
    } else {
        ctx
    }
}

/// Appends the instructions to run bindings.
pub fn run_bindings(effects: &mut Vec<Effect>, kind: BindingKind, run: &Vec<usize>)
    ensures
        effect::values(*final(effects)) == effect::values(*old(effects)) + binding_steps(
            kind,
            run@,
        ),
{
    let ghost before = effect::values(*effects);
    let mut i: usize = 0;
    assert(before =~= before + binding_steps(kind, run@.take(0)));
    while i < run.len()
        invariant
            i <= run@.len(),
            effect::values(*effects) == before + binding_steps(kind, run@.take(i as int)),
        decreases run@.len() - i,
    {
        effect::step(effects, Step::RunBinding(kind, run[i]));
        i = i + 1;
        assert(run@.take(i as int).drop_last() =~= run@.take(i - 1));
        assert(effect::values(*effects) =~= before + binding_steps(kind, run@.take(i as int)));
    }
    assert(run@.take(i as int) =~= run@);
}

/// What is written for a character that is typed.
pub open spec fn typed_bytes(ctx: ActionContext, c: char) -> Seq<u8> {
    let bytes = vstd::utf8::encode_utf8(seq![c]);
    if ctx.config.alt_send_esc && ctx.received_count == 0 && ctx.modifiers.alt && bytes.len() == 1 {
        seq![0x1bu8] + bytes
    } else {
        bytes
    }
}

/// A character goes to the child process.
pub open spec fn typed(ctx: ActionContext, mode: TermMode) -> bool {
    !ctx.suppress_chars && !mode.vi && !ctx.searching()
}

/// What a character sets off.
pub open spec fn char_effects(ctx: ActionContext, c: char, mode: TermMode, host: HostView) -> Seq<
    EffectView,
> {
    if typed(ctx, mode) {
        context::typing_effects(ctx.config, host.blink_scheduled).push(
            effect::act(Step::Scroll(Scroll::Bottom)),
        ) + context::selection_clear().push(EffectView::WriteToPty(typed_bytes(ctx, c)))
    } else if ctx.searching() && !ctx.suppress_chars {
        seq![effect::act(Step::SearchInput(c))]
    } else {
        Seq::empty()
    }
}

/// Every character of a text is searched for.
pub open spec fn search_inputs(chars: Seq<char>) -> Seq<EffectView>
    decreases chars.len(),
{
    if chars.len() == 0 {
        Seq::empty()
    } else {
        search_inputs(chars.drop_last()).push(effect::act(Step::SearchInput(chars.last())))
    }
}

/// What a pasted text sets off: it is searched for, or written, between brackets where the
/// program asked for them.
pub open spec fn paste_effects(contents: Seq<char>, searching: bool, bracketed: bool) -> Seq<
    EffectView,
> {
    let bytes = vstd::utf8::encode_utf8(contents);
    if searching {
        search_inputs(contents)
    } else if bracketed {
        seq![
            EffectView::WriteToPty(paste_start()),
            EffectView::WriteToPty(text::without_escapes(bytes)),
            EffectView::WriteToPty(paste_end()),
        ]
    } else {
        seq![EffectView::WriteToPty(text::typed_line_breaks(bytes))]
    }
}

/// `ESC [ 2 0 0 ~`
pub open spec fn paste_start() -> Seq<u8> {
    seq![0x1b, 0x5b, 0x32, 0x30, 0x30, 0x7e]
}

/// `ESC [ 2 0 1 ~`
pub open spec fn paste_end() -> Seq<u8> {
    seq![0x1b, 0x5b, 0x32, 0x30, 0x31, 0x7e]
}

/// Paste a text.
pub fn paste(contents: &str, searching: bool, bracketed: bool) -> (r: Vec<Effect>)
    ensures
        effect::values(r) == paste_effects(contents@, searching, bracketed),
{
    let mut fx = effect::none();
    if searching {
        let chars = text::chars_of(contents);
        let mut i: usize = 0;
        while i < chars.len()
            invariant
                i <= chars@.len(),
                effect::values(fx) == search_inputs(chars@.take(i as int)),
            decreases chars@.len() - i,
        {
            effect::step(&mut fx, Step::SearchInput(chars[i]));
            i = i + 1;
            assert(chars@.take(i as int).drop_last() =~= chars@.take(i - 1));
        }
        assert(chars@.take(i as int) =~= chars@);
    } else if bracketed {
        let start: Vec<u8> = vec![0x1b, 0x5b, 0x32, 0x30, 0x30, 0x7e];
        let end: Vec<u8> = vec![0x1b, 0x5b, 0x32, 0x30, 0x31, 0x7e];
        assert(start@ =~= paste_start());
        assert(end@ =~= paste_end());
        effect::emit(&mut fx, Effect::WriteToPty(start));
        effect::emit(
            &mut fx,
            Effect::WriteToPty(text::strip_escapes(&text::bytes_of(contents))),
        );
        effect::emit(&mut fx, Effect::WriteToPty(end));
    } else {
        // In non-bracketed (ie: normal) mode, terminal applications cannot distinguish pasted
        // data from keystrokes. We replace line breaks (windows and unix style) with a single
        // carriage return, which is what the Enter key produces.
        effect::emit(
            &mut fx,
            Effect::WriteToPty(text::type_line_breaks(&text::bytes_of(contents))),
        );
    }
    fx
}

/// A text that is pasted between brackets cannot close them: it holds no escape character.
pub proof fn law_pasted_text_stays_in_brackets(contents: Seq<char>)
    ensures
        paste_effects(contents, false, true).len() == 3,
        paste_effects(contents, false, true)[1] matches EffectView::WriteToPty(bytes)
            && !bytes.contains(0x1b),
{
    let bytes = vstd::utf8::encode_utf8(contents);
    let kept = |b: u8| b != 0x1b;
    assert forall|i: int| 0 <= i < bytes.filter(kept).len() implies bytes.filter(kept)[i]
        != 0x1b by {
        bytes.lemma_filter_pred(kept, i);
    }
}

impl Processor {
    /// Process key input.
    pub fn key_input(&mut self, input: KeyboardInput, mode: &TermMode, host: &HostView) -> (r: Vec<
        Effect,
    >)
        ensures
            *final(self) == (Processor {
                ctx: context_after_key(old(self).ctx, input, *mode),
                ..*old(self)
            }),
            effect::values(r) == key_effects(old(self).ctx, input, *mode, *host),
    {
        let mut fx = effect::none();
        // Reset search delay when the user is still typing.
        if self.ctx.search_active() && host.delayed_search_scheduled {
            effect::step(&mut fx, Step::PostponeDelayedSearch);
        }
        match input.state {
            ElementState::Pressed => {
                self.ctx.received_count = 0;
                let run = self.process_key_bindings(input, mode);
                run_bindings(&mut fx, BindingKind::Key, &run);
            },
            ElementState::Released => {
                self.ctx.suppress_chars = false;
            },
        }
        assert(effect::values(fx) =~= key_effects(old(self).ctx, input, *mode, *host));
        fx
    }

    /// Process a received character.
    pub fn received_char(&mut self, c: char, mode: &TermMode, host: &HostView) -> (r: Vec<Effect>)
        requires
            typed(old(self).ctx, *mode) ==> old(self).ctx.received_count < usize::MAX,
        ensures
            *final(self) == (Processor {
                ctx: context_after_char(old(self).ctx, *mode, *host),
                ..*old(self)
            }),
            effect::values(r) == char_effects(old(self).ctx, c, *mode, *host),
    {
        let suppress_chars = self.ctx.suppress_chars;
        let search_active = self.ctx.search_active();
        if suppress_chars || mode.vi || search_active {
            let mut fx = effect::none();
            if search_active && !suppress_chars {
                effect::step(&mut fx, Step::SearchInput(c));
            }
            return fx;
        }
        let mut fx = self.ctx.on_typing_start(host.blink_scheduled);
        effect::step(&mut fx, Step::Scroll(Scroll::Bottom));
        effect::extend(&mut fx, context::clear_selection());
        let mut bytes = text::char_bytes(c);
        if self.ctx.config.alt_send_esc && self.ctx.received_count == 0 && self.ctx.modifiers.alt
            && bytes.len() == 1 {
            bytes.insert(0, 0x1b);
            assert(bytes@ =~= typed_bytes(old(self).ctx, c));
        }
        effect::emit(&mut fx, Effect::WriteToPty(bytes));
        self.ctx.received_count = self.ctx.received_count + 1;
        assert(effect::values(fx) =~= char_effects(old(self).ctx, c, *mode, *host));
        fx
    }

    /// Attempt to find the bindings of a key. Their actions are run in this order.
    ///
    /// The provided mode, mods, and key must match what is allowed by a binding for its action to
    /// be executed.
    pub fn process_key_bindings(&mut self, input: KeyboardInput, mode: &TermMode) -> (r: Vec<usize>)
        ensures
            r@ == bindings_of_key(
                old(self).ctx.config.key_bindings@,
                BindingMode::spec_new(*mode, old(self).ctx.searching()),
                old(self).ctx.modifiers,
                input,
            ),
            *final(self) == (Processor {
                ctx: ActionContext {
                    suppress_chars: suppresses(old(self).ctx.config.key_bindings@, r@),
                    ..old(self).ctx
                },
                ..*old(self)
            }),
    {
        let mode = BindingMode::new(mode, self.ctx.search_active());
        let mods = self.ctx.modifiers;
        let bindings = &self.ctx.config.key_bindings;
        let ghost wanted = |i: int| key_runs(bindings@[i], mode, mods, input);
        let mut run: Vec<usize> = Vec::new();
        let mut passed = false;
        let mut i: usize = 0;
        while i < bindings.len()
            invariant
                i <= bindings@.len(),
                wanted == (|i: int| key_runs(bindings@[i], mode, mods, input)),
                run@ == chosen(wanted, i as nat),
                forall|j: int| 0 <= j < run@.len() ==> (#[trigger] run@[j]) < i,
                passed <==> exists|j: int|
                    0 <= j < run@.len() && bindings@[(#[trigger] run@[j]) as int].action
                        is ReceiveChar,
            decreases bindings@.len() - i,
        {
            let binding = &bindings[i];
            let key = match (binding.trigger, input.virtual_keycode) {
                (Key::Scancode(_), _) => Some(Key::Scancode(input.scancode)),
                (_, Some(key)) => Some(Key::Keycode(key)),
                _ => None,
            };
            assert(key == key_for(binding.trigger, input));
            let ghost before = run@;
            if let Some(key) = key {
                if binding.is_triggered_by(mode, mods, &key) {
                    assert(wanted(i as int));
                    run.push(i);
                    // Pass through the key if any of the bindings has the `ReceiveChar` action.
                    if binding.action.is_receive_char() {
                        passed = true;
                    }
                    assert(run@[run@.len() - 1] == i);
                    assert(forall|j: int| 0 <= j < before.len() ==> run@[j] == before[j]);
                }
            }
            i = i + 1;
        }
        // Don't suppress char if no bindings were triggered.
        let suppress = run.len() > 0 && !passed;
        self.ctx.suppress_chars = suppress;
        run
    }

    /// Attempt to find the bindings of a button. Their actions are run in this order.
    ///
    /// The provided mode, mods, and button must match what is allowed by a binding for its action
    /// to be executed.
    pub fn process_mouse_bindings(&self, button: MouseButton, mode: &TermMode) -> (r: Vec<usize>)
        ensures
            r@ == bindings_of_button(
                self.ctx.config.mouse_bindings@,
                *mode,
                self.ctx.searching(),
                self.ctx.modifiers,
                button,
            ),
    {
        let searching = self.ctx.search_active();
        let binding_mode = BindingMode::new(mode, searching);
        let mouse_mode = context::mouse_mode(mode);
        let mods = self.ctx.modifiers;
        let bindings = &self.ctx.config.mouse_bindings;
        let ghost wanted = |i: int| button_runs(bindings@[i], *mode, searching, mods, button);
        let mut run: Vec<usize> = Vec::new();
        let mut i: usize = 0;
        while i < bindings.len()
            invariant
                i <= bindings@.len(),
                binding_mode == BindingMode::spec_new(*mode, searching),
                mouse_mode == mode.reports_mouse(),
                wanted == (|i: int| button_runs(bindings@[i], *mode, searching, mods, button)),
                run@ == chosen(wanted, i as nat),
            decreases bindings@.len() - i,
        {
            let binding = &bindings[i];
            // Require shift for all modifiers when mouse mode is active.
            let mut required = binding.mods;
            if mouse_mode {
                required.shift = true;
            }
            let runs = binding.trigger == button && required == mods && binding_mode.contains(
                &binding.mode,
            ) && !binding_mode.intersects(&binding.notmode);
            assert(runs == wanted(i as int));
            if runs {
                run.push(i);
            }
            i = i + 1;
        }
        run
    }
}

/// The bindings that are run are those that are wanted, each once and in order.
pub proof fn law_chosen_is_all_wanted(wanted: spec_fn(int) -> bool, n: nat)
    requires
        n <= usize::MAX,
    ensures
        forall|j: int|
            0 <= j < chosen(wanted, n).len() ==> #[trigger] chosen(wanted, n)[j] < n && wanted(
                chosen(wanted, n)[j] as int,
            ),
        forall|j: int, k: int|
            0 <= j < k < chosen(wanted, n).len() ==> #[trigger] chosen(wanted, n)[j]
                < #[trigger] chosen(wanted, n)[k],
        forall|i: int|
            0 <= i < n && #[trigger] wanted(i) ==> chosen(wanted, n).contains(i as usize),
    decreases n,
{
    if n > 0 {
        let before = chosen(wanted, (n - 1) as nat);
        law_chosen_is_all_wanted(wanted, (n - 1) as nat);
        assert forall|i: int| 0 <= i < n && #[trigger] wanted(i) implies chosen(
            wanted,
            n,
        ).contains(i as usize) by {
            if i < n - 1 {
                assert(before.contains(i as usize));
                let j = choose|j: int| 0 <= j < before.len() && before[j] == i as usize;
                assert(chosen(wanted, n)[j] == i as usize);
            } else {
                assert(chosen(wanted, n)[before.len() as int] == i as usize);
            }
        }
    }
}

/// In vi mode, during a search, and where its key ran an action, a character is not written.
pub proof fn law_held_back_characters_are_not_written(
    ctx: ActionContext,
    c: char,
    mode: TermMode,
    host: HostView,
)
    requires
        mode.vi || ctx.searching() || ctx.suppress_chars,
    ensures
        forall|i: int|
            0 <= i < char_effects(ctx, c, mode, host).len() ==> !(#[trigger] char_effects(
                ctx,
                c,
                mode,
                host,
            )[i] is WriteToPty),
{
}

} // verus!
