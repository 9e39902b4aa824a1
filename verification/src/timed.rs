//! An application that receives the instant of each message in its update logic.
//!
//! Such an application can be animated and still be _pure_: its update logic need not read a clock.
//! A pure application ends up in the same state whenever it is given the same history of messages.

use vstd::prelude::*;

verus! {

/// The update logic of a timed application. `Output` is what it leads to: tasks that produce more
/// messages.
pub trait UpdateFn<State, Message, Instant, Output> {
    /// What the update logic may do: with `message`, which came at `now`, it may take `before` to
    /// `after` and give `output`. Logic that says nothing of itself may do anything.
    open spec fn may_update(
        &self,
        before: State,
        message: Message,
        now: Instant,
        after: State,
        output: Output,
    ) -> bool {
        true
    }

    /// Processes the message and updates the state of the application.
    fn update(&self, state: &mut State, message: Message, now: Instant) -> (r: Output)
        ensures
            self.may_update(*old(state), message, now, *final(state), r),
    ;
}

/// Update logic that does nothing.
impl<State, Message, Instant> UpdateFn<State, Message, Instant, ()> for () {
    open spec fn may_update(
        &self,
        before: State,
        message: Message,
        now: Instant,
        after: State,
        output: (),
    ) -> bool {
        after == before
    }

    fn update(&self, _state: &mut State, _message: Message, _now: Instant) {
    }
}

/// The parts of a timed application.
pub struct Instance<Context, Persistent, Boot, Update, Subscription, View> {
    pub nice_ctx: Context,
    pub persistent_state: Persistent,
    pub boot: Boot,
    pub update: Update,
    pub subscription: Subscription,
    pub view: View,
}

/// An application, ready to be run.
pub struct Application<Raw, Settings, Preset> {
    pub raw: Raw,
    pub iced_settings: Settings,
    pub presets: Vec<Preset>,
}

/// Creates an application with an `update` function that also takes the instant of each message.
/// `settings` are the default settings; there are no presets.
pub fn timed<Context, Persistent, Boot, Update, Subscription, View, Settings, Preset>(
    persistent_state: Persistent,
    nice_ctx: Context,
    boot: Boot,
    update: Update,
    subscription: Subscription,
    view: View,
    settings: Settings,
) -> (r: Application<
    Instance<Context, Persistent, Boot, Update, Subscription, View>,
    Settings,
    Preset,
>)
    ensures
        r.raw == (Instance { nice_ctx, persistent_state, boot, update, subscription, view }),
        r.iced_settings == settings,
        r.presets@ == Seq::<Preset>::empty(),
{
    Application {
        raw: Instance { nice_ctx, persistent_state, boot, update, subscription, view },
        iced_settings: settings,
        presets: Vec::new(),
    }
}

impl<Context, Persistent, Boot, Update, Subscription, View> Instance<
    Context,
    Persistent,
    Boot,
    Update,
    Subscription,
    View,
> {
    /// Boots the application: the boot function gets the state that persists between editor opens
    /// and the editor's context.
    pub fn boot<State, Output>(&self) -> (r: (State, Output)) where
        Boot: Fn(&Persistent, &Context) -> (State, Output),

        requires
            call_requires(self.boot, (&self.persistent_state, &self.nice_ctx)),
        ensures
            call_ensures(self.boot, (&self.persistent_state, &self.nice_ctx), r),
    {
        (self.boot)(&self.persistent_state, &self.nice_ctx)
    }

    /// Processes a message with the instant that it was stamped with when it was produced, however
    /// much later it is processed.
    pub fn update<State, Message, Instant, Output>(
        &self,
        state: &mut State,
        stamped: (Message, Instant),
    ) -> (r: Output) where Update: UpdateFn<State, Message, Instant, Output>
        ensures
            self.update.may_update(*old(state), stamped.0, stamped.1, *final(state), r),
    {
        let (message, now): (Message, Instant) = stamped;
        self.update.update(state, message, now)
    }
}

/// The update logic is pure: what it makes of a state is decided by the message and its instant.
pub open spec fn pure_update<State, Message, Instant, Output, U: UpdateFn<
    State,
    Message,
    Instant,
    Output,
>>(logic: U) -> bool {
    forall|
        before: State,
        message: Message,
        now: Instant,
        a: State,
        b: State,
        first: Output,
        second: Output,
    |
        #![trigger
            logic.may_update(before, message, now, a, first),
            logic.may_update(before, message, now, b, second)
        ]
        logic.may_update(before, message, now, a, first) && logic.may_update(
            before,
            message,
            now,
            b,
            second,
        ) ==> a == b
}

/// The update logic may take the application from `start` to `end` by a history of messages.
pub open spec fn may_run<State, Message, Instant, Output, U: UpdateFn<
    State,
    Message,
    Instant,
    Output,
>>(logic: U, start: State, history: Seq<(Message, Instant)>, end: State) -> bool
    decreases history.len(),
{
    if history.len() == 0 {
        end == start
    } else {
        let stamped = history.last();
        exists|before: State, output: Output|
            {
                &&& may_run::<State, Message, Instant, Output, U>(
                    logic,
                    start,
                    history.drop_last(),
                    before,
                )
                &&& #[trigger] logic.may_update(before, stamped.0, stamped.1, end, output)
            }
    }
}

/// With pure update logic, an application ends up in the same state whenever it is given the same
/// history of messages.
pub proof fn the_same_history_leads_to_the_same_state<
    State,
    Message,
    Instant,
    Output,
    U: UpdateFn<State, Message, Instant, Output>,
>(logic: U, start: State, history: Seq<(Message, Instant)>, a: State, b: State)
    requires
        pure_update::<State, Message, Instant, Output, U>(logic),
        may_run::<State, Message, Instant, Output, U>(logic, start, history, a),
        may_run::<State, Message, Instant, Output, U>(logic, start, history, b),
    ensures
        a == b,
    decreases history.len(),
{
    if history.len() > 0 {
        let stamped = history.last();
        let rest = history.drop_last();
        let (p, first): (State, Output) = choose|p: State, first: Output|
            {
                &&& may_run::<State, Message, Instant, Output, U>(logic, start, rest, p)
                &&& #[trigger] logic.may_update(p, stamped.0, stamped.1, a, first)
            };
        let (q, second): (State, Output) = choose|q: State, second: Output|
            {
                &&& may_run::<State, Message, Instant, Output, U>(logic, start, rest, q)
                &&& #[trigger] logic.may_update(q, stamped.0, stamped.1, b, second)
            };
        the_same_history_leads_to_the_same_state::<State, Message, Instant, Output, U>(
            logic,
            start,
            rest,
            p,
            q,
        );
    }
}

/// An application whose update logic does nothing stays as it was booted.
pub proof fn an_idle_application_never_changes<State, Message, Instant>(
    start: State,
    history: Seq<(Message, Instant)>,
    end: State,
)
    requires
        may_run::<State, Message, Instant, (), ()>((), start, history, end),
    ensures
        end == start,
    decreases history.len(),
{
    if history.len() > 0 {
        let stamped = history.last();
        let rest = history.drop_last();
        let (before, output): (State, ()) = choose|before: State, output: ()|
            {
                &&& may_run::<State, Message, Instant, (), ()>((), start, rest, before)
                &&& #[trigger] UpdateFn::<State, Message, Instant, ()>::may_update(
                    &(),
                    before,
                    stamped.0,
                    stamped.1,
                    end,
                    output,
                )
            };
        an_idle_application_never_changes::<State, Message, Instant>(start, rest, before);
    }
}

} // verus!
