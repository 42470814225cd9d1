//! Routes from hardware events to hardware tasks.
use vstd::prelude::*;
use crate::channel::{ChannelBinding, TaskSink};

verus! {

/// Routes the fabric can hold at once.
pub const MAX_ROUTES: usize = 16;

/// A hardware event that a route can start from.
#[derive(Clone, Copy, Debug, PartialEq, Eq, Structural)]
pub enum EventSource {
    /// The timer's counter matched the compare register with this number.
    TimerCompare(u8),
}

/// One route of the fabric. While it is enabled, each occurrence of the event
/// fires the task, with no instruction executed.
#[derive(Clone, Copy, Debug, PartialEq, Eq, Structural)]
pub struct EventRoute {
    pub event_source: EventSource,
    pub task_sink: TaskSink,
    pub enabled: bool,
}

/// The routes that have been bound, in the order of their binding. A route is
/// known by its place in that order.
#[derive(Debug)]
pub struct EventRouteTable {
    routes: Vec<EventRoute>,
}

/// A table with route `route` switched on or off; any other number changes
/// nothing.
pub open spec fn with_route_enabled(routes: Seq<EventRoute>, route: int, enabled: bool) -> Seq<
    EventRoute,
> {
    if 0 <= route < routes.len() {
        routes.update(route, EventRoute { enabled, ..routes[route] })
    } else {
        routes
    }
}

/// No route is enabled.
pub open spec fn all_disabled(routes: Seq<EventRoute>) -> bool {
    forall|i: int| 0 <= i < routes.len() ==> !(#[trigger] routes[i]).enabled
}

/// Every route is enabled.
pub open spec fn all_enabled(routes: Seq<EventRoute>) -> bool {
    forall|i: int| 0 <= i < routes.len() ==> (#[trigger] routes[i]).enabled
}

impl EventRouteTable {
    /// The routes in the order of their binding.
    pub closed spec fn view(&self) -> Seq<EventRoute> {
        self.routes@
    }

    /// A table without routes.
    pub fn new() -> (table: Self)
        ensures
            table@ == Seq::<EventRoute>::empty(),
    {
        EventRouteTable { routes: Vec::new() }
    }

    /// How many routes are bound.
    pub fn len(&self) -> (n: usize)
        ensures
            n == self@.len(),
    {
        self.routes.len()
    }

    /// Binds a route from `event_source` to the toggle task of `sink`, which
    /// has to be bound already. The route starts disabled. Returns the route's
    /// number, or `None` when the table is full, in which case nothing changes.
    pub fn bind_route(&mut self, event_source: EventSource, sink: &ChannelBinding) -> (route:
        Option<u8>)
        ensures
            old(self)@.len() < MAX_ROUTES ==> route == Some(old(self)@.len() as u8) && final(self)@
                == old(self)@.push(
                EventRoute {
                    event_source,
                    task_sink: TaskSink::ChannelToggle(sink@.channel),
                    enabled: false,
                },
            ),
            old(self)@.len() >= MAX_ROUTES ==> route.is_none() && final(self)@ == old(self)@,
    {
        let n = self.routes.len();
        if n >= MAX_ROUTES {
            return None;
        }
        self.routes.push(EventRoute { event_source, task_sink: sink.task_sink(), enabled: false });
        Some(n as u8)
    }

    /// Enables route `route`. Enabling an enabled route changes nothing, and
    /// neither does a number that no route has.
    pub fn enable(&mut self, route: u8)
        ensures
            final(self)@ == with_route_enabled(old(self)@, route as int, true),
    {
        self.set_enabled(route, true);
    }

    /// Disables route `route`. Disabling a disabled route changes nothing, and
    /// neither does a number that no route has.
    pub fn disable(&mut self, route: u8)
        ensures
            final(self)@ == with_route_enabled(old(self)@, route as int, false),
    {
        self.set_enabled(route, false);
    }

    fn set_enabled(&mut self, route: u8, enabled: bool)
        ensures
            final(self)@ == with_route_enabled(old(self)@, route as int, enabled),
    {
        let i = route as usize;
        if i < self.routes.len() {
            let current = self.routes[i];
            self.routes.set(
                i,
                EventRoute {
                    event_source: current.event_source,
                    task_sink: current.task_sink,
                    enabled,
                },
            );
        }
    }

    /// A copy of route `route`, if there is one.
    pub fn route(&self, route: u8) -> (found: Option<EventRoute>)
        ensures
            (route as int) < self@.len() ==> found == Some(self@[route as int]),
            (route as int) >= self@.len() ==> found.is_none(),
    {
        let i = route as usize;
        if i < self.routes.len() {
            Some(self.routes[i])
        } else {
            None
        }
    }
}

} // verus!
