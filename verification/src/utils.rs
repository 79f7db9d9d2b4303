//! Snapshot side-file helpers: file names, timestamps, and the text of
//! the description files written beside captures.

use vstd::prelude::*;

use vstd::string::StringExecFns;
use crate::clock::utc_timestamp_compact;
use crate::text::str_is;

verus! {

/// The current UTC time as `YYYYMMDD_HHMMSS`, for file names.
pub fn generate_timestamp() -> String {
    utc_timestamp_compact()
}

/// The file name of a snapshot image: `<prefix>_<timestamp>.png`.
pub fn generate_filename(prefix: &str, timestamp: &str) -> (r: String)
    ensures
        r@ == prefix@ + "_"@ + timestamp@ + ".png"@,
{
    let r = prefix.to_owned().concat("_").concat(timestamp).concat(".png");
    proof {
        assert(r@ == prefix@ + "_"@ + timestamp@ + ".png"@);
    }
    r
}

/// The canned description of a CLI application state, by state name.
pub open spec fn spec_cli_state_description(state: Seq<char>, desc: Seq<char>) -> Seq<char> {
    if state == "initial"@ {
        "CLI application in 'initial' state: displaying status bar with uptime and terminal size, progress bar at 0%, three buttons (Increment, Reset, Exit) with Increment selected, checkbox unchecked, slider at 5, no info box visible, counter at 0."@
    } else if state == "navigate_to_increment"@ {
        "CLI application in 'navigate_to_increment' state: displaying status bar, progress bar advancing, Increment button selected after navigation, counter at 0."@
    } else if state == "increment_counter"@ {
        "CLI application in 'increment_counter' state: displaying status bar, progress bar advancing, Increment button selected, counter incremented from 0."@
    } else if state == "navigate_to_reset"@ {
        "CLI application in 'navigate_to_reset' state: displaying status bar, progress bar advancing, Reset button selected after navigation, counter at incremented value."@
    } else if state == "reset_counter"@ {
        "CLI application in 'reset_counter' state: displaying status bar, progress bar advancing, Reset button selected, counter reset to 0."@
    } else {
        "CLI application in '"@ + state + "' state: "@ + desc
    }
}

/// Generate the CLI-specific description of a state.
pub fn generate_cli_state_description(state: &str, state_desc: &str) -> (r: String)
    ensures
        r@ == spec_cli_state_description(state@, state_desc@),
{
    if str_is(state, "initial") {
        return "CLI application in 'initial' state: displaying status bar with uptime and terminal size, progress bar at 0%, three buttons (Increment, Reset, Exit) with Increment selected, checkbox unchecked, slider at 5, no info box visible, counter at 0.".to_owned();
    }
    if str_is(state, "navigate_to_increment") {
        return "CLI application in 'navigate_to_increment' state: displaying status bar, progress bar advancing, Increment button selected after navigation, counter at 0.".to_owned();
    }
    if str_is(state, "increment_counter") {
        return "CLI application in 'increment_counter' state: displaying status bar, progress bar advancing, Increment button selected, counter incremented from 0.".to_owned();
    }
    if str_is(state, "navigate_to_reset") {
        return "CLI application in 'navigate_to_reset' state: displaying status bar, progress bar advancing, Reset button selected after navigation, counter at incremented value.".to_owned();
    }
    if str_is(state, "reset_counter") {
        return "CLI application in 'reset_counter' state: displaying status bar, progress bar advancing, Reset button selected, counter reset to 0.".to_owned();
    }
    let r = "CLI application in '".to_owned().concat(state).concat("' state: ").concat(state_desc);
    proof {
        assert(r@ == "CLI application in '"@ + state@ + "' state: "@ + state_desc@);
    }
    r
}

/// The canned description of a web application state, by state name.
pub open spec fn spec_web_state_description(state: Seq<char>, desc: Seq<char>) -> Seq<char> {
    if state == "initial"@ {
        "Web application in 'initial' state: displaying header with navigation, sidebar with collapsible sections (Section 1 expanded, others collapsed), main content with welcome message, interactive buttons (Primary, Secondary, Accent), volume slider at 50%, color dropdown set to Default, status display showing 'Ready'."@
    } else {
        "Web application in '"@ + state + "' state: "@ + desc
    }
}

/// Generate the web-specific description of a state.
pub fn generate_web_state_description(state: &str, state_desc: &str) -> (r: String)
    ensures
        r@ == spec_web_state_description(state@, state_desc@),
{
    if str_is(state, "initial") {
        return "Web application in 'initial' state: displaying header with navigation, sidebar with collapsible sections (Section 1 expanded, others collapsed), main content with welcome message, interactive buttons (Primary, Secondary, Accent), volume slider at 50%, color dropdown set to Default, status display showing 'Ready'.".to_owned();
    }
    let r = "Web application in '".to_owned().concat(state).concat("' state: ").concat(state_desc);
    proof {
        assert(r@ == "Web application in '"@ + state@ + "' state: "@ + state_desc@);
    }
    r
}

/// The detailed description of a state, by capture source.
pub open spec fn spec_state_description(source: Seq<char>, state: Seq<char>, desc: Seq<char>) -> Seq<
    char,
> {
    if source == "cli"@ {
        spec_cli_state_description(state, desc)
    } else if source == "web"@ {
        spec_web_state_description(state, desc)
    } else {
        "This snapshot captures the '"@ + state + "' state of the application."@
    }
}

/// Generate the detailed description of an application state.
pub fn generate_state_description(source: &str, state: &str, state_desc: &str) -> (r: String)
    ensures
        r@ == spec_state_description(source@, state@, state_desc@),
{
    if str_is(source, "cli") {
        return generate_cli_state_description(state, state_desc);
    }
    if str_is(source, "web") {
        return generate_web_state_description(state, state_desc);
    }
    let r = "This snapshot captures the '".to_owned().concat(state).concat(
        "' state of the application.",
    );
    proof {
        assert(r@ == "This snapshot captures the '"@ + state@
            + "' state of the application."@);
    }
    r
}

/// The text of the description file written beside a capture: a state
/// block when the metadata names a state, a web-page block when it names
/// a URL, and a generic block otherwise.
pub open spec fn spec_description_text(
    source: Seq<char>,
    timestamp_text: Seq<char>,
    state: Option<(Seq<char>, Seq<char>)>,
    url: Option<Seq<char>>,
) -> Seq<char> {
    match state {
        Some((name, desc)) => "State: "@ + name + "\nDescription: "@ + desc + "\nSource: "@
            + source + "\nTimestamp: "@ + timestamp_text + "\n\n"@ + spec_state_description(
            source,
            name,
            desc,
        ) + "\n\nActual visual content: not visualized yet"@,
        None => match url {
            Some(u) => "Web page screenshot\nURL: "@ + u + "\nSource: "@ + source
                + "\nTimestamp: "@ + timestamp_text
                + "\n\nThis snapshot captures the web page at the specified URL.\n\nActual visual content: not visualized yet"@,
            None => source + " screenshot\nSource: "@ + source + "\nTimestamp: "@ + timestamp_text
                + "\n\nThis snapshot captures a "@ + source
                + " screen.\n\nActual visual content: not visualized yet"@,
        },
    }
}

/// Build the text of the description file written beside a capture.
pub fn build_description(
    source: &str,
    timestamp_text: &str,
    state: Option<(&str, &str)>,
    url: Option<&str>,
) -> (r: String)
    ensures
        r@ == spec_description_text(source@, timestamp_text@, match state {
            Some((n, d)) => Some((n@, d@)),
            None => None,
        }, match url {
            Some(u) => Some(u@),
            None => None,
        }),
{
    match state {
        Some((name, desc)) => {
            let detail = generate_state_description(source, name, desc);
            let r = "State: ".to_owned().concat(name).concat("\nDescription: ").concat(
                desc,
            ).concat("\nSource: ").concat(source).concat("\nTimestamp: ").concat(
                timestamp_text,
            ).concat("\n\n").concat(detail.as_str()).concat(
                "\n\nActual visual content: not visualized yet",
            );
            proof {
                assert(r@ == spec_description_text(source@, timestamp_text@, Some((name@, desc@)),
                match url {
                    Some(u) => Some(u@),
                    None => None,
                }));
            }
            r
        },
        None => {
            match url {
                Some(u) => {
                    let r = "Web page screenshot\nURL: ".to_owned().concat(u).concat(
                        "\nSource: ",
                    ).concat(source).concat("\nTimestamp: ").concat(timestamp_text).concat(
                        "\n\nThis snapshot captures the web page at the specified URL.\n\nActual visual content: not visualized yet",
                    );
                    proof {
                        assert(r@ == spec_description_text(source@, timestamp_text@, None, Some(
                            u@,
                        )));
                    }
                    r
                },
                None => {
                    let r = source.to_owned().concat(" screenshot\nSource: ").concat(
                        source,
                    ).concat("\nTimestamp: ").concat(timestamp_text).concat(
                        "\n\nThis snapshot captures a ",
                    ).concat(source).concat(
                        " screen.\n\nActual visual content: not visualized yet",
                    );
                    proof {
                        assert(r@ == spec_description_text(source@, timestamp_text@, None, None));
                    }
                    r
                },
            }
        },
    }
}

} // verus!
