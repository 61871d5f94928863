//! The state behind the controller's dashboard and the choice of what the
//! program runs.

use vstd::prelude::*;
use vstd::string::StringExecFns;
use crate::protocol::INPUT_PORT;
use crate::text::{decimal, decimal_digits, decimal_string, trim, trimmed};

verus! {

/// What the program runs.
#[derive(Debug, Clone, Copy, PartialEq, Eq, Structural)]
pub enum RunMode {
    /// Print a health report and stop.
    Diagnose,
    /// Open the dashboard.
    Dashboard,
    /// Run without a window.
    Headless,
}

/// The mode that the command line asks for: the diagnostic report takes
/// precedence over the dashboard, and without either the program runs
/// headless.
pub fn select_run_mode(diagnose: bool, dashboard: bool) -> (m: RunMode)
    ensures
        m == (if diagnose {
            RunMode::Diagnose
        } else if dashboard {
            RunMode::Dashboard
        } else {
            RunMode::Headless
        }),
{
    if diagnose {
        RunMode::Diagnose
    } else if dashboard {
        RunMode::Dashboard
    } else {
        RunMode::Headless
    }
}

/// The settings and connection state that the dashboard shows.
#[derive(Debug, Clone, PartialEq, Eq)]
pub struct Dashboard {
    pub machine_name: String,
    pub target_ip: String,
    pub connected: bool,
    pub clipboard_sync: bool,
    pub file_transfer_enabled: bool,
}

/// The mathematical form of a [`Dashboard`].
pub struct DashboardView {
    pub machine_name: Seq<char>,
    pub target_ip: Seq<char>,
    pub connected: bool,
    pub clipboard_sync: bool,
    pub file_transfer_enabled: bool,
}

impl View for Dashboard {
    type V = DashboardView;

    open spec fn view(&self) -> DashboardView {
        DashboardView {
            machine_name: self.machine_name@,
            target_ip: self.target_ip@,
            connected: self.connected,
            clipboard_sync: self.clipboard_sync,
            file_transfer_enabled: self.file_transfer_enabled,
        }
    }
}

impl DashboardView {
    /// The same dashboard with the connection switched on or off.
    pub open spec fn with_connection(self, connected: bool) -> DashboardView {
        DashboardView { connected: connected, ..self }
    }
}

/// The address that the dashboard connects to: the target machine's address
/// without surrounding white space, a colon, and the input port.
pub open spec fn connect_target(target_ip: Seq<char>) -> Seq<char> {
    trim(target_ip) + seq![':'] + decimal(INPUT_PORT as int)
}

/// The address a dashboard connects to is the whole typed address, with the
/// white space around it removed and nothing else, followed by `:24800`.
pub proof fn lemma_connect_target_is_address_and_port(target_ip: Seq<char>)
    ensures
        connect_target(target_ip) == trim(target_ip) + ":24800"@,
        connect_target(target_ip).len() == trim(target_ip).len() + 6,
        connect_target(target_ip).subrange(0, trim(target_ip).len() as int) == trim(target_ip),
{
    reveal_strlit(":24800");
    reveal_with_fuel(decimal_digits, 6);
    assert(decimal(INPUT_PORT as int) =~= seq!['2', '4', '8', '0', '0']);
    assert(connect_target(target_ip) =~= trim(target_ip) + ":24800"@);
    assert(connect_target(target_ip).subrange(0, trim(target_ip).len() as int) =~= trim(
        target_ip,
    ));
}

/// The text of the status line.
pub open spec fn status_text(connected: bool) -> Seq<char> {
    if connected {
        "Status: Connected 🟢"@
    } else {
        "Status: Idle ⚪"@
    }
}

impl Dashboard {
    /// The dashboard as it first opens: named `Kali-Linux`, aimed at
    /// `100.119.208.55`, idle, with clipboard synchronization and file
    /// transfer switched on.
    pub fn new() -> (d: Self)
        ensures
            d@.machine_name == "Kali-Linux"@,
            d@.target_ip == "100.119.208.55"@,
            !d.connected,
            d.clipboard_sync,
            d.file_transfer_enabled,
    {
        Dashboard {
            machine_name: String::from_str("Kali-Linux"),
            target_ip: String::from_str("100.119.208.55"),
            connected: false,
            clipboard_sync: true,
            file_transfer_enabled: true,
        }
    }

    /// The connect button: the dashboard becomes connected, and the address to
    /// send the first event to is returned.
    pub fn connect(&mut self) -> (target: String)
        ensures
            final(self)@ == old(self)@.with_connection(true),
            target@ == connect_target(old(self)@.target_ip),
            target@ == trim(old(self)@.target_ip) + ":24800"@,
            target@.len() == trim(old(self)@.target_ip).len() + 6,
    {
        self.connected = true;
        let mut target = trimmed(self.target_ip.as_str());
        proof {
            reveal_strlit(":");
        }
        target.append(":");
        let port = decimal_string(INPUT_PORT as i64);
        target.append(port.as_str());
        proof {
            lemma_connect_target_is_address_and_port(old(self)@.target_ip);
        }
        target
    }

    /// The disconnect button: the dashboard becomes idle.
    pub fn disconnect(&mut self)
        ensures
            final(self)@ == old(self)@.with_connection(false),
    {
        self.connected = false;
    }

    /// The status line for the current connection state.
    pub fn status_line(&self) -> (s: String)
        ensures
            s@ == status_text(self.connected),
    {
        if self.connected {
            String::from_str("Status: Connected 🟢")
        } else {
            String::from_str("Status: Idle ⚪")
        }
    }
}

/// What happened in the dashboard during one frame.
#[derive(Debug, Clone, Copy, PartialEq, Eq, Structural)]
pub enum FrameEvent {
    /// No button was clicked and no shortcut pressed.
    Nothing,
    /// The connect button, shown while idle, was clicked.
    ConnectClicked,
    /// The disconnect button, shown while connected, was clicked.
    DisconnectClicked,
    /// Ctrl+Escape was pressed, which hands control back to this machine.
    ReleaseShortcut,
}

/// The dashboard after one frame, and the address to announce this machine to
/// if the frame connected.
pub open spec fn frame_step(d: DashboardView, event: FrameEvent) -> (DashboardView, Option<
    Seq<char>,
>) {
    match event {
        FrameEvent::ConnectClicked => if !d.connected {
            (d.with_connection(true), Some(connect_target(d.target_ip)))
        } else {
            (d, None)
        },
        FrameEvent::DisconnectClicked | FrameEvent::ReleaseShortcut => if d.connected {
            (d.with_connection(false), None)
        } else {
            (d, None)
        },
        FrameEvent::Nothing => (d, None),
    }
}

impl Dashboard {
    /// Handles what happened in one frame: a click on the button that the
    /// frame shows switches the connection, Ctrl+Escape while connected
    /// disconnects, and anything else changes nothing. Where the frame
    /// connected, the address to announce this machine to is returned.
    pub fn handle_frame(&mut self, event: FrameEvent) -> (announce: Option<String>)
        ensures
            final(self)@ == frame_step(old(self)@, event).0,
            match announce {
                Some(target) => frame_step(old(self)@, event).1 == Some(target@),
                None => frame_step(old(self)@, event).1 is None,
            },
    {
        match event {
            FrameEvent::ConnectClicked => {
                if !self.connected {
                    Some(self.connect())
                } else {
                    None
                }
            },
            FrameEvent::DisconnectClicked | FrameEvent::ReleaseShortcut => {
                if self.connected {
                    self.disconnect();
                }
                None
            },
            FrameEvent::Nothing => None,
        }
    }
}

/// No frame renames the machine, retargets it or switches its settings; a
/// frame in which nothing happened changes nothing at all and announces
/// nothing; and only a click on the connect button connects.
pub proof fn lemma_frames_change_only_the_connection(d: DashboardView, event: FrameEvent)
    ensures
        frame_step(d, event).0.machine_name == d.machine_name,
        frame_step(d, event).0.target_ip == d.target_ip,
        frame_step(d, event).0.clipboard_sync == d.clipboard_sync,
        frame_step(d, event).0.file_transfer_enabled == d.file_transfer_enabled,
        event == FrameEvent::Nothing ==> frame_step(d, event) == (d, None::<Seq<char>>),
        frame_step(d, event).0.connected && !d.connected ==> event == FrameEvent::ConnectClicked,
        frame_step(d, event).1 is Some ==> event == FrameEvent::ConnectClicked && !d.connected,
{
}

/// Ctrl+Escape always leaves the dashboard disconnected and announces
/// nothing.
pub proof fn lemma_release_shortcut_disconnects(d: DashboardView)
    ensures
        !frame_step(d, FrameEvent::ReleaseShortcut).0.connected,
        frame_step(d, FrameEvent::ReleaseShortcut).1 is None,
{
}

/// Connecting and then disconnecting leaves an idle dashboard as it was.
pub proof fn lemma_connect_then_disconnect_restores(d: DashboardView)
    requires
        !d.connected,
    ensures
        d.with_connection(true).with_connection(false) == d,
{
}

} // verus!
