//! The description of a window before it is shown, and its launch.

use vstd::prelude::*;

verus! {

/// A window to show: the window of the windowing system, the state that the
/// application starts with, and what configures the environment.
pub struct GuiInstance<W, State, E> {
    pub window: W,
    pub initial_state: Option<State>,
    pub env: Option<E>,
}

impl<W, State, E> GuiInstance<W, State, E> {
    /// An instance for `window`, with no initial state and no configuration
    /// yet.
    pub fn new(window: W) -> (r: Self)
        ensures
            r.window == window,
            r.initial_state is None,
            r.env is None,
    {
        GuiInstance { window, initial_state: None, env: None }
    }

    /// The same instance with the window that `f` makes of its window.
    pub fn window<F: FnOnce(W) -> W>(self, f: F) -> (r: Self)
        requires
            f.requires((self.window,)),
        ensures
            f.ensures((self.window,), r.window),
            r.initial_state == self.initial_state,
            r.env == self.env,
    {
        GuiInstance { window: f(self.window), initial_state: self.initial_state, env: self.env }
    }

    /// The same instance, to start with `state`.
    pub fn with_initial_state(self, state: State) -> (r: Self)
        ensures
            r.window == self.window,
            r.initial_state == Some(state),
            r.env == self.env,
    {
        GuiInstance { window: self.window, initial_state: Some(state), env: self.env }
    }

    /// The same instance, with `f` to configure the environment.
    pub fn configure_env(self, f: E) -> (r: Self)
        ensures
            r.window == self.window,
            r.initial_state == self.initial_state,
            r.env == Some(f),
    {
        GuiInstance { window: self.window, initial_state: self.initial_state, env: Some(f) }
    }
}

/// Launches windows.
#[derive(Debug)]
pub struct GuiLauncher;

impl GuiLauncher {
    /// Hands the window and the initial state of `main_window` to `launcher`,
    /// which shows the window, and returns what it returns. The instance
    /// must have an initial state.
    pub fn launch<W, State, E, R, L: FnOnce(W, State) -> R>(
        main_window: GuiInstance<W, State, E>,
        launcher: L,
    ) -> (r: R)
        requires
            main_window.initial_state is Some,
            launcher.requires((main_window.window, main_window.initial_state->Some_0)),
        ensures
            launcher.ensures((main_window.window, main_window.initial_state->Some_0), r),
    {
        let (window, state) = GuiLauncher::custom(main_window);
        launcher(window, state)
    }

    /// The window and the initial state of `main_window`, for a launch that
    /// the caller makes. The instance must have an initial state.
    pub fn custom<W, State, E>(main_window: GuiInstance<W, State, E>) -> (r: (W, State))
        requires
            main_window.initial_state is Some,
        ensures
            r.0 == main_window.window,
            r.1 == main_window.initial_state->Some_0,
    {
        let GuiInstance { window, initial_state, env: _ } = main_window;
        (window, initial_state.unwrap())
    }
}

} // verus!
