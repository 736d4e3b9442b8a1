//! The status in words, for the window, the tray menu and the tooltip.

use crate::intelligence::{two_decimals, push_two_decimals, SystemState, SystemStatus};
use crate::text::{decimal, push_decimal};
use vstd::prelude::*;
use vstd::string::*;

verus! {

/// Shows the status to the user.
#[derive(Debug, Clone, Copy)]
pub struct StatusDisplay {}

/// A percentage in millionths as a whole number of percent, rounded to the nearest.
pub open spec fn whole_percent(percentage: u64) -> nat {
    ((percentage + 500_000) / 1_000_000) as nat
}

/// Where the status line is shown.
#[derive(Debug, Clone, Copy, PartialEq, Eq, Structural)]
pub enum StatusPlace {
    Window,
    MenuItem,
    Tooltip,
}

/// What comes before the word for the state.
pub open spec fn lead(place: StatusPlace) -> Seq<char> {
    match place {
        StatusPlace::Window => Seq::empty(),
        StatusPlace::MenuItem => "◉ SpeedKarma — "@,
        StatusPlace::Tooltip => "SpeedKarma - "@,
    }
}

/// The status line of a learning system.
pub open spec fn learning_line(place: StatusPlace, status: SystemStatus) -> Seq<char> {
    match (place, status.data_collection_progress) {
        (StatusPlace::Window, Some(progress)) => "Learning your network patterns — "@ + decimal(
            progress.days_collected as nat,
        ) + "/"@ + decimal(progress.days_needed as nat) + " days ("@ + decimal(
            whole_percent(progress.progress_percentage),
        ) + "%)"@,
        (StatusPlace::Window, None) => "Learning your network patterns"@,
        (StatusPlace::MenuItem, Some(progress)) => lead(place) + "Learning patterns ("@ + decimal(
            progress.days_collected as nat,
        ) + " of "@ + decimal(progress.days_needed as nat) + " days)"@,
        (StatusPlace::MenuItem, None) => lead(place) + "Learning patterns"@,
        (StatusPlace::Tooltip, Some(progress)) => lead(place) + "Learning patterns ("@ + decimal(
            whole_percent(progress.progress_percentage),
        ) + "% complete)"@,
        (StatusPlace::Tooltip, None) => lead(place) + "Learning network patterns"@,
    }
}

/// The status line of an optimizing system.
pub open spec fn optimizing_line(place: StatusPlace, status: SystemStatus) -> Seq<char> {
    match (place, status.effectiveness) {
        (StatusPlace::Window, Some(metrics)) => "Optimizing — "@ + two_decimals(
            metrics.improvement_factor,
        ) + "x improvement"@,
        (StatusPlace::Window, None) => "Optimizing network"@,
        (StatusPlace::MenuItem, Some(metrics)) => lead(place) + "Optimizing ("@ + two_decimals(
            metrics.improvement_factor,
        ) + "x)"@,
        (StatusPlace::MenuItem, None) => lead(place) + "Optimizing"@,
        (StatusPlace::Tooltip, Some(metrics)) => lead(place) + "Optimizing ("@ + two_decimals(
            metrics.improvement_factor,
        ) + "x improvement)"@,
        (StatusPlace::Tooltip, None) => lead(place) + "Optimizing network"@,
    }
}

/// The status line at `place`.
pub open spec fn status_line(place: StatusPlace, status: SystemStatus) -> Seq<char> {
    match status.state {
        SystemState::Learning => learning_line(place, status),
        SystemState::Optimizing => optimizing_line(place, status),
        SystemState::Monitoring => match place {
            StatusPlace::Window => "Monitoring network"@,
            StatusPlace::MenuItem => lead(place) + "Monitoring"@,
            StatusPlace::Tooltip => lead(place) + "Monitoring network"@,
        },
        SystemState::Inactive => lead(place) + "Inactive"@,
        SystemState::Error(cause) => lead(place) + "Error: "@ + cause@,
    }
}

fn push_whole_percent(out: &mut String, percentage: u64)
    ensures
        final(out)@ == old(out)@ + decimal(whole_percent(percentage)),
{
    let rounded: u64 = ((percentage as u128 + 500_000) / 1_000_000) as u64;
    push_decimal(out, rounded);
}

fn start_line(place: StatusPlace) -> (r: String)
    ensures
        r@ == lead(place),
{
    match place {
        StatusPlace::Window => String::new(),
        StatusPlace::MenuItem => String::from_str("◉ SpeedKarma — "),
        StatusPlace::Tooltip => String::from_str("SpeedKarma - "),
    }
}

/// The status line at `place`.
pub fn format_status_line(place: StatusPlace, status: &SystemStatus) -> (r: String)
    ensures
        r@ == status_line(place, *status),
{
    let mut out = start_line(place);
    match &status.state {
        SystemState::Learning => {
            match (place, status.data_collection_progress) {
                (StatusPlace::Window, Some(progress)) => {
                    out.append("Learning your network patterns — ");
                    push_decimal(&mut out, progress.days_collected as u64);
                    out.append("/");
                    push_decimal(&mut out, progress.days_needed as u64);
                    out.append(" days (");
                    push_whole_percent(&mut out, progress.progress_percentage);
                    out.append("%)");
                },
                (StatusPlace::Window, None) => {
                    out.append("Learning your network patterns");
                },
                (StatusPlace::MenuItem, Some(progress)) => {
                    out.append("Learning patterns (");
                    push_decimal(&mut out, progress.days_collected as u64);
                    out.append(" of ");
                    push_decimal(&mut out, progress.days_needed as u64);
                    out.append(" days)");
                },
                (StatusPlace::MenuItem, None) => {
                    out.append("Learning patterns");
                },
                (StatusPlace::Tooltip, Some(progress)) => {
                    out.append("Learning patterns (");
                    push_whole_percent(&mut out, progress.progress_percentage);
                    out.append("% complete)");
                },
                (StatusPlace::Tooltip, None) => {
                    out.append("Learning network patterns");
                },
            }
        },
        SystemState::Optimizing => {
            match (place, status.effectiveness) {
                (StatusPlace::Window, Some(metrics)) => {
                    out.append("Optimizing — ");
                    push_two_decimals(&mut out, metrics.improvement_factor);
                    out.append("x improvement");
                },
                (StatusPlace::Window, None) => {
                    out.append("Optimizing network");
                },
                (StatusPlace::MenuItem, Some(metrics)) => {
                    out.append("Optimizing (");
                    push_two_decimals(&mut out, metrics.improvement_factor);
                    out.append("x)");
                },
                (StatusPlace::MenuItem, None) => {
                    out.append("Optimizing");
                },
                (StatusPlace::Tooltip, Some(metrics)) => {
                    out.append("Optimizing (");
                    push_two_decimals(&mut out, metrics.improvement_factor);
                    out.append("x improvement)");
                },
                (StatusPlace::Tooltip, None) => {
                    out.append("Optimizing network");
                },
            }
        },
        SystemState::Monitoring => {
            match place {
                StatusPlace::Window => {
                    out.append("Monitoring network");
                },
                StatusPlace::MenuItem => {
                    out.append("Monitoring");
                },
                StatusPlace::Tooltip => {
                    out.append("Monitoring network");
                },
            }
        },
        SystemState::Inactive => {
            out.append("Inactive");
        },
        SystemState::Error(cause) => {
            out.append("Error: ");
            out.append(cause.as_str());
        },
    }
    assert(out@ =~= status_line(place, *status));
    out
}

impl StatusDisplay {
    /// A display.
    pub fn new() -> (r: Self) {
        StatusDisplay {  }
    }

    /// The status in words for the window.
    pub fn format_status_message(&self, status: &SystemStatus) -> (r: String)
        ensures
            r@ == status_line(StatusPlace::Window, *status),
    {
        format_status_line(StatusPlace::Window, status)
    }
}

/// The status in words for the tray's menu item.
pub fn format_menu_item_text(status: &SystemStatus) -> (r: String)
    ensures
        r@ == status_line(StatusPlace::MenuItem, *status),
{
    format_status_line(StatusPlace::MenuItem, status)
}

/// The status in words for the tray's tooltip.
pub fn format_tooltip_text(status: &SystemStatus) -> (r: String)
    ensures
        r@ == status_line(StatusPlace::Tooltip, *status),
{
    format_status_line(StatusPlace::Tooltip, status)
}

} // verus!
