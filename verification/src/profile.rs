//! The configuration-profile command surface: the data a caller hands the
//! command loop, and the pure text of every status line the loop prints.
//! The profile store itself — listing, loading and deleting credentials on
//! disk — is an external collaborator; the command loop performs those
//! effects and feeds their plain results to the functions here.

use vstd::prelude::*;

verus! {

/// The profile command: one subcommand per invocation.
#[derive(Debug)]
pub struct Profile {
    pub command: Command,
}

/// The subcommands of the profile command.
#[derive(Debug)]
pub enum Command {
    /// List all configuration profiles.
    List,
    /// View a configuration profile's details.
    Show(Show),
    /// Delete a configuration profile.
    Delete(Delete),
}

/// Arguments of the show subcommand: the profile's name, and whether
/// sensitive configuration may be shown.
#[derive(Debug)]
pub struct Show {
    pub name: String,
    pub sensitive: bool,
}

/// Arguments of the delete subcommand: the profile's name.
#[derive(Debug)]
pub struct Delete {
    pub name: String,
}

/// The lines printed for a listing: a single placeholder line when no
/// profile exists, else a heading followed by one line per profile, in the
/// store's order.
pub fn list_lines(profiles: &Vec<String>) -> (r: Vec<String>)
    ensures
        profiles@.len() == 0 ==> r@.len() == 1 && r@[0]@ == "No profiles found."@,
        profiles@.len() > 0 ==> {
            &&& r@.len() == profiles@.len() + 1
            &&& r@[0]@ == "Profiles:"@
            &&& forall|i: int| 0 <= i < profiles@.len() ==> #[trigger] r@[i + 1]@ == profiles@[i]@
        },
{
    let mut r: Vec<String> = Vec::new();
    if profiles.len() == 0 {
        r.push(String::from_str("No profiles found."));
    } else {
        r.push(String::from_str("Profiles:"));
        let n = profiles.len();
        let mut i: usize = 0;
        while i < n
            invariant
                n == profiles@.len(),
                i <= n,
                r@.len() == i + 1,
                r@[0]@ == "Profiles:"@,
                forall|j: int| 0 <= j < i ==> #[trigger] r@[j + 1]@ == profiles@[j]@,
            decreases n - i,
        {
            r.push(profiles[i].clone());
            i += 1;
        }
    }
    r
}

/// The line printed for a successfully shown profile: its name, a colon,
/// and the store's account of the profile.
pub fn show_line(name: &str, profile_text: &str) -> (r: String)
    ensures
        r@ == name@ + ": "@ + profile_text@,
{
    let mut out = String::new();
    out.append(name);
    out.append(": ");
    out.append(profile_text);
    proof {
        assert(out@ =~= name@ + ": "@ + profile_text@);
    }
    out
}

/// The context line attached to a failure to load a profile: a hint to
/// re-run with the sensitive flag when the store found nothing but
/// sensitive configuration, a plain failure line on any other fault.
pub fn load_error_context(no_non_sensitive_config: bool) -> (r: String)
    ensures
        no_non_sensitive_config ==> r@
            == "Could not show any profile information. Try re-running with the `--sensitive` flag"@,
        !no_non_sensitive_config ==> r@ == "Could not load profile"@,
{
    if no_non_sensitive_config {
        String::from_str(
            "Could not show any profile information. Try re-running with the `--sensitive` flag",
        )
    } else {
        String::from_str("Could not load profile")
    }
}

/// The line printed after a successful deletion, naming the profile in
/// quotes.
pub fn delete_confirmation(name: &str) -> (r: String)
    ensures
        r@ == "Successfully deleted profile \""@ + name@ + "\""@,
{
    let mut out = String::new();
    out.append("Successfully deleted profile \"");
    out.append(name);
    out.append("\"");
    proof {
        assert(out@ =~= "Successfully deleted profile \""@ + name@ + "\""@);
    }
    out
}

} // verus!
