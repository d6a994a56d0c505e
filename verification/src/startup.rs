//! What the application works out when it comes up: where its log files go,
//! and what it tells the user when it cannot start.

use vstd::prelude::*;
use crate::text::texts;

verus! {

/// The home directory to use: the one the environment names, else the root
/// of the system drive on Windows and the temporary directory elsewhere.
pub open spec fn home_or_default(home: Option<String>, windows: bool) -> Seq<char> {
    match home {
        Some(dir) => dir@,
        None => if windows {
            "C:\\"@
        } else {
            "/tmp"@
        },
    }
}

/// The components of the log directory, outermost first: the home directory,
/// then `.ragkit`, then `logs`. The caller joins them into a path.
pub fn log_dir_components(home: Option<String>, windows: bool) -> (components: Vec<String>)
    ensures
        texts(components@) == seq![home_or_default(home, windows), ".ragkit"@, "logs"@],
{
    let base = match home {
        Some(dir) => dir,
        None => if windows {
            String::from_str("C:\\")
        } else {
            String::from_str("/tmp")
        },
    };
    let mut components: Vec<String> = Vec::new();
    components.push(base);
    components.push(String::from_str(".ragkit"));
    components.push(String::from_str("logs"));
    assert(texts(components@) =~= seq![home_or_default(home, windows), ".ragkit"@, "logs"@]);
    components
}

/// The text shown when the application fails to start.
pub open spec fn startup_failure_text(error: Seq<char>, log_dir: Seq<char>) -> Seq<char> {
    "RAGKIT Desktop failed to start:\n\n"@ + error
        + "\n\nPossible fixes:\n- Install Microsoft Edge WebView2 Runtime\n- Install Visual C++ Redistributable (x64)\n- Check logs at: "@
        + log_dir
}

/// The message for the log and the error dialog when the application fails to
/// start: the error, the usual remedies, and where the logs are.
pub fn startup_failure_message(error: &str, log_dir: &str) -> (text: String)
    ensures
        text@ == startup_failure_text(error@, log_dir@),
{
    let mut text = String::from_str("RAGKIT Desktop failed to start:\n\n");
    text.append(error);
    text.append(
        "\n\nPossible fixes:\n- Install Microsoft Edge WebView2 Runtime\n- Install Visual C++ Redistributable (x64)\n- Check logs at: ",
    );
    text.append(log_dir);
    text
}

} // verus!
