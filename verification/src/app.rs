//! The application state and the keys that change it.

use vstd::prelude::*;

verus! {

/// One input event, reduced to what the application tells apart.
#[derive(Clone, Copy, Debug, PartialEq, Eq, Structural)]
pub enum Input {
    /// A key that produces a character.
    Char(char),
    /// The escape key.
    Escape,
    /// Any other key, and any event that is not a key press.
    Other,
}

/// What the render loop does after an input was handled.
#[derive(Clone, Copy, Debug, PartialEq, Eq, Structural)]
pub enum Flow {
    /// Draw again and wait for the next input.
    Continue,
    /// Leave the loop.
    Quit,
}

/// The application state: a single flag.
#[derive(Clone, Copy, Debug, PartialEq, Eq, Structural)]
pub struct App {
    pub edit_mode: bool,
}

/// The result of running the render loop over a finite script of inputs.
#[derive(Clone, Copy, Debug, PartialEq, Eq, Structural)]
pub struct Run {
    /// The state when the loop stopped or ran out of inputs.
    pub app: App,
    /// How many inputs the loop read, which is also how often it drew.
    pub consumed: usize,
    /// Whether the loop ended. If not, it is waiting for more input.
    pub quit: bool,
}

impl Input {
    /// The key that ends the loop.
    pub open spec fn is_quit(self) -> bool {
        self == Input::Char('q')
    }

    /// The key that enters edit mode.
    pub open spec fn is_edit(self) -> bool {
        self == Input::Char('e')
    }
}

/// No escape key among `inputs[lo..hi]`.
pub open spec fn no_escape_between(inputs: Seq<Input>, lo: int, hi: int) -> bool {
    forall|j: int| lo <= j < hi ==> #[trigger] inputs[j] != Input::Escape
}

/// `inputs[i]` is an `e` and no escape key follows it.
pub open spec fn entered_at(inputs: Seq<Input>, i: int) -> bool {
    &&& 0 <= i < inputs.len()
    &&& inputs[i].is_edit()
    &&& no_escape_between(inputs, i + 1, inputs.len() as int)
}

/// The edit flag after `inputs`, starting from `start`: an `e` was seen more
/// recently than any escape key, or the flag was set at the start and no
/// escape key was seen at all.
pub open spec fn edit_mode_after(start: bool, inputs: Seq<Input>) -> bool {
    ||| exists|i: int| #[trigger] entered_at(inputs, i)
    ||| (start && no_escape_between(inputs, 0, inputs.len() as int))
}

/// No quit key among `inputs[0..hi]`.
pub open spec fn no_quit_before(inputs: Seq<Input>, hi: int) -> bool {
    forall|j: int| 0 <= j < hi ==> !(#[trigger] inputs[j]).is_quit()
}

impl Default for App {
    /// The application starts outside edit mode.
    fn default() -> (app: App)
        ensures
            app.edit_mode == false,
    {
        App { edit_mode: false }
    }
}

impl App {
    /// The state that follows `self` on `input`.
    pub open spec fn after(self, input: Input) -> App {
        if input.is_edit() {
            App { edit_mode: true }
        } else if input == Input::Escape {
            App { edit_mode: false }
        } else {
            self
        }
    }

    /// The state that follows `self` on a whole sequence of inputs.
    pub open spec fn after_all(self, inputs: Seq<Input>) -> App
        decreases inputs.len(),
    {
        if inputs.len() == 0 {
            self
        } else {
            self.after_all(inputs.drop_last()).after(inputs.last())
        }
    }

    /// Handles one input: `e` enters edit mode, escape leaves it, `q` ends
    /// the loop and every other input changes nothing.
    pub fn handle(&mut self, input: Input) -> (flow: Flow)
        ensures
            *final(self) == old(self).after(input),
            flow == (if input.is_quit() {
                Flow::Quit
            } else {
                Flow::Continue
            }),
    {
        match input {
            Input::Char(c) => {
                if c == 'q' {
                    return Flow::Quit;
                }
                if c == 'e' {
                    self.edit_mode = true;
                }
            },
            Input::Escape => {
                self.edit_mode = false;
            },
            Input::Other => {},
        }
        Flow::Continue
    }
}

/// One more input changes the edit flag as [`App::after`] says.
pub proof fn lemma_edit_mode_push(start: bool, inputs: Seq<Input>, input: Input)
    ensures
        edit_mode_after(start, inputs.push(input)) == (App {
            edit_mode: edit_mode_after(start, inputs),
        }).after(input).edit_mode,
{
    let longer = inputs.push(input);
    let n = inputs.len() as int;
    assert forall|i: int| 0 <= i < n implies #[trigger] longer[i] == inputs[i] by {}
    assert(longer[n] == input);
    if input.is_edit() {
        assert(entered_at(longer, n));
    } else if input == Input::Escape {
        assert forall|i: int| !#[trigger] entered_at(longer, i) by {
            if 0 <= i < n {
                assert(longer[n] == Input::Escape);
            }
        }
        assert(longer[n] == Input::Escape);
    } else {
        if edit_mode_after(start, inputs) {
            if exists|i: int| #[trigger] entered_at(inputs, i) {
                let i = choose|i: int| #[trigger] entered_at(inputs, i);
                assert(longer[i] == inputs[i]);
                assert(entered_at(longer, i));
            } else {
                assert(no_escape_between(longer, 0, n + 1));
            }
        }
        if edit_mode_after(start, longer) {
            if exists|i: int| #[trigger] entered_at(longer, i) {
                let i = choose|i: int| #[trigger] entered_at(longer, i);
                assert(i < n);
                assert(longer[i] == inputs[i]);
                assert forall|j: int| i + 1 <= j < n implies #[trigger] inputs[j]
                    != Input::Escape by {
                    assert(longer[j] == inputs[j]);
                }
                assert(entered_at(inputs, i));
            } else {
                assert forall|j: int| 0 <= j < n implies #[trigger] inputs[j]
                    != Input::Escape by {
                    assert(longer[j] == inputs[j]);
                }
            }
        }
    }
}

/// Folding [`App::after`] over the inputs gives the flag that
/// [`edit_mode_after`] describes: edit mode is on exactly when an `e` was
/// seen more recently than any escape key.
pub proof fn lemma_after_all_edit_mode(app: App, inputs: Seq<Input>)
    ensures
        app.after_all(inputs).edit_mode == edit_mode_after(app.edit_mode, inputs),
    decreases inputs.len(),
{
    if inputs.len() == 0 {
        assert(!exists|i: int| #[trigger] entered_at(inputs, i));
    } else {
        lemma_after_all_edit_mode(app, inputs.drop_last());
        lemma_edit_mode_push(app.edit_mode, inputs.drop_last(), inputs.last());
        assert(inputs.drop_last().push(inputs.last()) =~= inputs);
    }
}

/// Runs the render loop over a script of inputs: each turn draws, reads one
/// input and handles it. The loop ends at the first `q` and at no other
/// input; when the script ends first, the loop is still waiting.
pub fn run_app(app: App, inputs: &Vec<Input>) -> (run: Run)
    ensures
        run.quit <==> exists|i: int| 0 <= i < inputs@.len() && (#[trigger] inputs@[i]).is_quit(),
        run.quit ==> 0 < run.consumed <= inputs@.len() && inputs@[run.consumed - 1].is_quit()
            && no_quit_before(inputs@, run.consumed - 1),
        !run.quit ==> run.consumed == inputs@.len(),
        run.app.edit_mode == edit_mode_after(app.edit_mode, inputs@.take(run.consumed as int)),
        run.app == app.after_all(inputs@.take(run.consumed as int)),
{
    let mut current = app;
    let mut i: usize = 0;
    proof {
        assert(inputs@.take(0) =~= Seq::<Input>::empty());
    }
    while i < inputs.len()
        invariant
            i <= inputs@.len(),
            no_quit_before(inputs@, i as int),
            current == app.after_all(inputs@.take(i as int)),
        decreases inputs@.len() - i,
    {
        let input = inputs[i];
        let flow = current.handle(input);
        proof {
            let longer = inputs@.take(i + 1);
            assert(longer.drop_last() =~= inputs@.take(i as int));
            assert(longer.last() == input);
        }
        i = i + 1;
        match flow {
            Flow::Quit => {
                proof {
                    lemma_after_all_edit_mode(app, inputs@.take(i as int));
                }
                return Run { app: current, consumed: i, quit: true };
            },
            Flow::Continue => {},
        }
    }
    proof {
        lemma_after_all_edit_mode(app, inputs@.take(i as int));
    }
    Run { app: current, consumed: i, quit: false }
}

} // verus!
