//! The decisions of the main window's event loop: what each event of the
//! windowing system makes the window do. The loop itself (waiting for
//! events, drawing, presenting) runs outside the library.
use vstd::prelude::*;

verus! {

/// The kinds of window events the loop tells apart.
#[derive(Clone, Copy, Debug, PartialEq, Eq, Structural)]
pub enum WindowEventKind {
    Resized,
    ScaleFactorChanged,
    CloseRequested,
    Other,
}

/// An event of the windowing system, with whether it concerns the window
/// this loop drives.
#[derive(Clone, Copy, Debug, PartialEq, Eq, Structural)]
pub enum LoopEvent {
    WindowEvent { own_window: bool, kind: WindowEventKind },
    RedrawRequested { own_window: bool },
    MainEventsCleared,
    Other,
}

/// What the loop does for one event.
#[derive(Clone, Copy, Debug, PartialEq, Eq, Structural)]
pub struct LoopStep {
    /// Hand the event to the GUI.
    pub update_gui: bool,
    /// Resize the swapchain.
    pub resize: bool,
    /// Ask the window whether it may close, and exit if so.
    pub ask_close: bool,
    /// Draw the window and present the frame.
    pub draw: bool,
    /// Ask for the next redraw.
    pub request_redraw: bool,
    /// Hand the event to the window's own handler.
    pub notify_window: bool,
}

/// Nothing at all: the event concerns another window.
pub open spec fn skip_step() -> LoopStep {
    LoopStep {
        update_gui: false,
        resize: false,
        ask_close: false,
        draw: false,
        request_redraw: false,
        notify_window: false,
    }
}

/// The step for `event`.
pub open spec fn spec_loop_step(event: LoopEvent) -> LoopStep {
    match event {
        LoopEvent::WindowEvent { own_window, kind } => if own_window {
            LoopStep {
                update_gui: true,
                resize: kind == WindowEventKind::Resized || kind
                    == WindowEventKind::ScaleFactorChanged,
                ask_close: kind == WindowEventKind::CloseRequested,
                draw: false,
                request_redraw: false,
                notify_window: true,
            }
        } else {
            skip_step()
        },
        LoopEvent::RedrawRequested { own_window } => if own_window {
            LoopStep { draw: true, notify_window: true, ..skip_step() }
        } else {
            skip_step()
        },
        LoopEvent::MainEventsCleared => LoopStep {
            request_redraw: true,
            notify_window: true,
            ..skip_step()
        },
        LoopEvent::Other => LoopStep { notify_window: true, ..skip_step() },
    }
}

/// What the loop does for one event.
pub fn loop_step(event: LoopEvent) -> (r: LoopStep)
    ensures
        r == spec_loop_step(event),
{
    let mut step = LoopStep {
        update_gui: false,
        resize: false,
        ask_close: false,
        draw: false,
        request_redraw: false,
        notify_window: false,
    };
    match event {
        LoopEvent::WindowEvent { own_window, kind } => {
            if !own_window {
                return step;
            }
            step.update_gui = true;
            match kind {
                WindowEventKind::Resized | WindowEventKind::ScaleFactorChanged => {
                    step.resize = true;
                },
                WindowEventKind::CloseRequested => {
                    step.ask_close = true;
                },
                WindowEventKind::Other => {},
            }
        },
        LoopEvent::RedrawRequested { own_window } => {
            if !own_window {
                return step;
            }
            step.draw = true;
        },
        LoopEvent::MainEventsCleared => {
            step.request_redraw = true;
        },
        LoopEvent::Other => {},
    }
    step.notify_window = true;
    step
}

/// Events of other windows are ignored altogether; the window is only
/// drawn on a redraw request for itself, and only asked to close when its
/// own close button was pressed.
pub proof fn law_foreign_events_ignored(event: LoopEvent)
    ensures
        event matches LoopEvent::WindowEvent { own_window: false, .. } ==> spec_loop_step(event)
            == skip_step(),
        event matches LoopEvent::RedrawRequested { own_window: false } ==> spec_loop_step(event)
            == skip_step(),
        spec_loop_step(event).draw <==> event == (LoopEvent::RedrawRequested { own_window: true }),
        spec_loop_step(event).ask_close <==> event == (LoopEvent::WindowEvent {
            own_window: true,
            kind: WindowEventKind::CloseRequested,
        }),
{
}

/// What each kind of event makes the loop do, over all events: the
/// swapchain is resized exactly when the loop's own window was resized or
/// changed its scale factor; every event of its own window goes to the GUI
/// and no other event does; a redraw is asked for exactly when the events
/// of a round are all handled; every event except those of other windows
/// reaches the window's own handler.
pub proof fn law_loop_step_actions(event: LoopEvent)
    ensures
        spec_loop_step(event).resize <==> (event == (LoopEvent::WindowEvent {
            own_window: true,
            kind: WindowEventKind::Resized,
        }) || event == (LoopEvent::WindowEvent {
            own_window: true,
            kind: WindowEventKind::ScaleFactorChanged,
        })),
        spec_loop_step(event).update_gui <==> (event matches LoopEvent::WindowEvent {
            own_window: true,
            ..
        }),
        spec_loop_step(event).request_redraw <==> event == LoopEvent::MainEventsCleared,
        spec_loop_step(event).notify_window <==> !(event matches LoopEvent::WindowEvent {
            own_window: false,
            ..
        } || event matches LoopEvent::RedrawRequested { own_window: false }),
{
}

} // verus!
