//! The stack of screens and the commands that change it.
//!
//! Screens and events never touch the stack themselves. They emit a
//! [`StackCommand`], and the host that owns the [`Screenstack`] applies the
//! commands one by one, in the order in which they were sent.

use vstd::prelude::*;

verus! {

/// Seconds for which a popup of one of the standard kinds stays visible.
pub const POPUP_SECONDS: u64 = 10;

/// What a popup announces, which decides how it is drawn.
#[derive(Copy, Clone, Debug, PartialEq, Eq, Structural)]
pub enum PopupKind {
    /// Something threatens the base.
    Warning,
    /// A message from mission control.
    Nasa,
    /// A fact about the planet.
    Mars,
    /// Something that should not have happened.
    Error,
}

/// A short notice laid over the current screen for a while.
#[derive(Clone, Debug, PartialEq, Eq)]
pub struct Popup {
    pub kind: PopupKind,
    pub text: String,
    /// Seconds for which the popup stays visible.
    pub duration: u64,
}

/// A popup as contracts see it.
pub struct PopupView {
    pub kind: PopupKind,
    pub text: Seq<char>,
    pub duration: int,
}

impl View for Popup {
    type V = PopupView;

    open spec fn view(&self) -> PopupView {
        PopupView { kind: self.kind, text: self.text@, duration: self.duration as int }
    }
}

impl PopupView {
    /// A popup of a standard kind, which is shown for [`POPUP_SECONDS`].
    pub open spec fn standard(kind: PopupKind, text: Seq<char>) -> PopupView {
        PopupView { kind, text, duration: POPUP_SECONDS as int }
    }
}

impl Popup {
    /// A popup of the given kind, text and time on screen.
    pub fn new(kind: PopupKind, text: String, duration: u64) -> (popup: Popup)
        ensures
            popup@ == (PopupView { kind, text: text@, duration: duration as int }),
    {
        Popup { kind, text, duration }
    }

    /// A warning.
    pub fn warning(text: String) -> (popup: Popup)
        ensures
            popup@ == PopupView::standard(PopupKind::Warning, text@),
    {
        Popup::new(PopupKind::Warning, text, POPUP_SECONDS)
    }

    /// A message from mission control.
    pub fn nasa(text: String) -> (popup: Popup)
        ensures
            popup@ == PopupView::standard(PopupKind::Nasa, text@),
    {
        Popup::new(PopupKind::Nasa, text, POPUP_SECONDS)
    }

    /// A fact about the planet.
    pub fn mars(text: String) -> (popup: Popup)
        ensures
            popup@ == PopupView::standard(PopupKind::Mars, text@),
    {
        Popup::new(PopupKind::Mars, text, POPUP_SECONDS)
    }
}

/// The view of a popup that may be absent.
pub open spec fn option_popup_view(popup: Option<Popup>) -> Option<PopupView> {
    match popup {
        Some(popup) => Some(popup@),
        None => None,
    }
}

/// The views of a list of popups, in order.
pub open spec fn popup_views(popups: Seq<Popup>) -> Seq<PopupView> {
    Seq::new(popups.len(), |i: int| popups[i]@)
}

/// A request to the host of the screen stack. `S` is the type of a screen.
#[derive(Debug)]
pub enum StackCommand<S> {
    /// Nothing to do.
    Nothing,
    /// Put a screen on top; it is the one shown from now on.
    Push(S),
    /// Lay a popup over whatever is shown.
    Popup(Popup),
    /// Take the top screen away; the one beneath is shown again.
    Pop,
}

/// A surface that the host can show: a menu, the running game, the death
/// screen.
pub trait Screen: Sized {
    /// What the host hands to the screen on every tick.
    type Context;

    /// What can go wrong in the screen.
    type Error;

    /// Advances the screen by one tick, and says what it asks of the host:
    /// one command, which the host applies once this call has returned.
    fn update(&mut self, ctx: &mut Self::Context) -> Result<StackCommand<Self>, Self::Error>;

    /// Shows the screen. Nothing that the simulation holds changes.
    fn draw(&self, ctx: &mut Self::Context) -> Result<(), Self::Error>;

    /// The end of the command channel through which the screen reaches a
    /// host.
    type Sender;

    /// Hands the screen the channel end of the host that shows it. A
    /// screen that was made without a host can send commands from then on.
    fn set_sender(&mut self, sender: Self::Sender);
}

/// The screens that are open, the visible one last, and the popups laid
/// over them, in the order in which they came.
pub struct Screenstack<S> {
    screens: Vec<S>,
    popups: Vec<Popup>,
}

/// A screen stack as contracts see it.
pub struct ScreenstackView<S> {
    /// The open screens, bottom first.
    pub screens: Seq<S>,
    /// The popups, oldest first.
    pub popups: Seq<PopupView>,
}

impl<S> ScreenstackView<S> {
    /// The stack after one command. A `Pop` of an empty stack changes
    /// nothing.
    pub open spec fn after(self, command: StackCommand<S>) -> ScreenstackView<S> {
        match command {
            StackCommand::Nothing => self,
            StackCommand::Push(screen) => ScreenstackView {
                screens: self.screens.push(screen),
                popups: self.popups,
            },
            StackCommand::Popup(popup) => ScreenstackView {
                screens: self.screens,
                popups: self.popups.push(popup@),
            },
            StackCommand::Pop => if self.screens.len() > 0 {
                ScreenstackView { screens: self.screens.drop_last(), popups: self.popups }
            } else {
                self
            },
        }
    }

    /// The stack after a run of commands, applied first to last.
    pub open spec fn after_all(self, commands: Seq<StackCommand<S>>) -> ScreenstackView<S>
        decreases commands.len(),
    {
        if commands.len() == 0 {
            self
        } else {
            self.after_all(commands.drop_last()).after(commands.last())
        }
    }

    /// The screen that is shown, if any is open.
    pub open spec fn top(self) -> Option<S> {
        if self.screens.len() > 0 {
            Some(self.screens.last())
        } else {
            None
        }
    }

    /// The stack with `screen` in the place of the screen that is shown.
    pub open spec fn with_top(self, screen: S) -> ScreenstackView<S> {
        ScreenstackView { screens: self.screens.drop_last().push(screen), popups: self.popups }
    }
}

impl<S> View for Screenstack<S> {
    type V = ScreenstackView<S>;

    closed spec fn view(&self) -> ScreenstackView<S> {
        ScreenstackView { screens: self.screens@, popups: popup_views(self.popups@) }
    }
}

impl<S> Screenstack<S> {
    /// A stack with no screen and no popup.
    pub fn new() -> (stack: Screenstack<S>)
        ensures
            stack@.screens == Seq::<S>::empty(),
            stack@.popups == Seq::<PopupView>::empty(),
    {
        let stack = Screenstack { screens: Vec::new(), popups: Vec::new() };
        assert(popup_views(stack.popups@) =~= Seq::<PopupView>::empty());
        stack
    }

    /// The number of open screens.
    pub fn len(&self) -> (n: usize)
        ensures
            n == self@.screens.len(),
    {
        self.screens.len()
    }

    /// The screen that is shown, if any is open.
    pub fn top(&self) -> (screen: Option<&S>)
        ensures
            match screen {
                Some(top) => self@.top() == Some(*top),
                None => self@.top().is_none(),
            },
    {
        let n = self.screens.len();
        if n > 0 {
            Some(&self.screens[n - 1])
        } else {
            None
        }
    }

    /// The popups laid over the screens, oldest first.
    pub fn popups(&self) -> (popups: &Vec<Popup>)
        ensures
            popup_views(popups@) == self@.popups,
    {
        &self.popups
    }

    /// Applies one command.
    pub fn process_command(&mut self, command: StackCommand<S>)
        ensures
            final(self)@ == old(self)@.after(command),
    {
        match command {
            StackCommand::Nothing => {},
            StackCommand::Push(screen) => {
                self.screens.push(screen);
            },
            StackCommand::Popup(popup) => {
                self.popups.push(popup);
                assert(popup_views(self.popups@) =~= popup_views(old(self).popups@).push(popup@));
            },
            StackCommand::Pop => {
                self.screens.pop();
            },
        }
    }

    /// Applies a run of commands, first to last.
    pub fn process_commands(&mut self, commands: Vec<StackCommand<S>>)
        ensures
            final(self)@ == old(self)@.after_all(commands@),
    {
        let ghost all = commands@;
        for command in iter: commands
            invariant
                iter.seq() == all,
                self@ == old(self)@.after_all(all.take(iter.index())),
        {
            assert(all.take(iter.index() + 1).drop_last() =~= all.take(iter.index()));
            self.process_command(command);
        }
        assert(all.take(all.len() as int) =~= all);
    }
}

impl<S: Screen> Screenstack<S> {
    /// Lets the screen that is shown advance by one tick, and then applies
    /// the one command that it returned.
    ///
    /// The top screen's own `update` is called once, on the screen and the
    /// context as they came in; the context goes out as that call left it.
    /// Where the call gave a command, the stack is the old one with the
    /// updated screen on top, and then the command applied. Where it
    /// failed, the error is handed on and no command is applied. The
    /// screens beneath the top are not touched. A screen must be open.
    pub fn update(&mut self, ctx: &mut S::Context) -> (result: Result<(), S::Error>)
        requires
            old(self)@.screens.len() > 0,
        ensures
            exists|shown: &mut S, handed: &mut S::Context, asked: Result<StackCommand<S>, S::Error>|
                #[trigger] call_ensures(S::update, (shown, handed), asked) && *shown == old(
                    self,
                )@.screens.last() && *handed == *old(ctx) && *final(handed) == *final(ctx)
                    && match asked {
                    Ok(command) => result is Ok && final(self)@ == old(self)@.with_top(
                        *final(shown),
                    ).after(command),
                    Err(error) => result == Err::<(), S::Error>(error) && final(self)@ == old(
                        self,
                    )@.with_top(*final(shown)),
                },
    {
        let shown = self.screens.len() - 1;
        let asked = self.screens[shown].update(ctx);
        let ghost top = self.screens@[shown as int];
        assert(self.screens@ =~= old(self).screens@.drop_last().push(top));
        assert(self@ == old(self)@.with_top(top));
        match asked {
            Ok(command) => {
                self.process_command(command);
                assert(self@ == old(self)@.with_top(top).after(command));
                Ok(())
            },
            Err(error) => Err(error),
        }
    }

    /// Puts a screen on top that does not know its host yet: the screen is
    /// first handed `sender` through its own `set_sender`, and then pushed
    /// as that call left it.
    pub fn push_wired(&mut self, screen: S, sender: S::Sender)
        ensures
            exists|wired: &mut S|
                #[trigger] call_ensures(S::set_sender, (wired, sender), ()) && *wired == screen
                    && final(self)@ == old(self)@.after(StackCommand::Push(*final(wired))),
    {
        let mut screen = screen;
        screen.set_sender(sender);
        self.process_command(StackCommand::Push(screen));
    }

    /// Shows the screen on top, and no other. The result is the one that
    /// the top screen's own `draw` gave when it was handed the context as
    /// it came in, and the context goes out as that call left it. The stack
    /// itself does not change. A screen must be open.
    pub fn draw(&self, ctx: &mut S::Context) -> (result: Result<(), S::Error>)
        requires
            self@.screens.len() > 0,
        ensures
            exists|handed: &mut S::Context|
                #[trigger] call_ensures(S::draw, (&self@.screens.last(), handed), result)
                    && *handed == *old(ctx) && *final(handed) == *final(ctx),
    {
        let top = &self.screens[self.screens.len() - 1];
        assert(*top == self@.screens.last());
        top.draw(ctx)
    }
}

} // verus!
