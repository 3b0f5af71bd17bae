//! The maintenance badge of a crate (`/crates/{name}/maintenance.svg`).
use crate::text::owned;
use vstd::prelude::*;

verus! {

/// The maintenance status a crate declares in its `Cargo.toml` badges.
#[derive(Debug, Clone, Copy, PartialEq, Eq)]
pub enum MaintenanceStatus {
    ActivelyDeveloped,
    PassivelyMaintained,
    AsIs,
    /// The status `none`.
    NotSpecified,
    Experimental,
    LookingForMaintainer,
    Deprecated,
}

/// The text on the right side of the badge.
pub open spec fn status_text(status: Option<MaintenanceStatus>) -> Seq<char> {
    match status {
        Some(MaintenanceStatus::ActivelyDeveloped) => "actively-developed"@,
        Some(MaintenanceStatus::PassivelyMaintained) => "passively-maintained"@,
        Some(MaintenanceStatus::AsIs) => "as-is"@,
        Some(MaintenanceStatus::NotSpecified) => "unknown"@,
        Some(MaintenanceStatus::Experimental) => "experimental"@,
        Some(MaintenanceStatus::LookingForMaintainer) => "looking-for-maintainer"@,
        Some(MaintenanceStatus::Deprecated) => "deprecated"@,
        None => "unknown"@,
    }
}

/// The color of the badge.
pub open spec fn status_color(status: Option<MaintenanceStatus>) -> Seq<char> {
    match status {
        Some(MaintenanceStatus::ActivelyDeveloped) => "brightgreen"@,
        Some(MaintenanceStatus::PassivelyMaintained) => "yellowgreen"@,
        Some(MaintenanceStatus::AsIs) => "yellow"@,
        Some(MaintenanceStatus::NotSpecified) => "lightgrey"@,
        Some(MaintenanceStatus::Experimental) => "blue"@,
        Some(MaintenanceStatus::LookingForMaintainer) => "orange"@,
        Some(MaintenanceStatus::Deprecated) => "red"@,
        None => "lightgrey"@,
    }
}

/// The name under which a crate declares its maintenance status in the
/// `[badges]` section of `Cargo.toml` (`maintenance = { status = "..." }`).
pub open spec fn declared_name(status: MaintenanceStatus) -> Seq<char> {
    match status {
        MaintenanceStatus::ActivelyDeveloped => "actively-developed"@,
        MaintenanceStatus::PassivelyMaintained => "passively-maintained"@,
        MaintenanceStatus::AsIs => "as-is"@,
        MaintenanceStatus::NotSpecified => "none"@,
        MaintenanceStatus::Experimental => "experimental"@,
        MaintenanceStatus::LookingForMaintainer => "looking-for-maintainer"@,
        MaintenanceStatus::Deprecated => "deprecated"@,
    }
}

/// The badge reads the status the crate declared, by its declared name;
/// a crate without a status, or with `none`, reads `unknown`. Each declared
/// status has its own color, so no two of them look alike; the badges
/// without a status are light grey.
pub proof fn lemma_badge_shows_declared_status(a: MaintenanceStatus, b: MaintenanceStatus)
    ensures
        a != MaintenanceStatus::NotSpecified ==> status_text(Some(a)) == declared_name(a),
        status_text(Some(MaintenanceStatus::NotSpecified)) == "unknown"@,
        status_text(None) == "unknown"@,
        a != b ==> status_color(Some(a)) != status_color(Some(b)),
        status_color(None) == status_color(Some(MaintenanceStatus::NotSpecified)),
{
    reveal_strlit("brightgreen");
    reveal_strlit("yellowgreen");
    reveal_strlit("yellow");
    reveal_strlit("lightgrey");
    reveal_strlit("blue");
    reveal_strlit("orange");
    reveal_strlit("red");
    // Told apart by their length and first letter.
    assert("brightgreen"@.len() == 11 && "brightgreen"@[0] == 'b');
    assert("yellowgreen"@.len() == 11 && "yellowgreen"@[0] == 'y');
    assert("yellow"@.len() == 6 && "yellow"@[0] == 'y');
    assert("lightgrey"@.len() == 9 && "lightgrey"@[0] == 'l');
    assert("blue"@.len() == 4 && "blue"@[0] == 'b');
    assert("orange"@.len() == 6 && "orange"@[0] == 'o');
    assert("red"@.len() == 3 && "red"@[0] == 'r');
}

/// The status text and color of the badge.
pub fn badge_text_and_color(status: Option<MaintenanceStatus>) -> (r: (&'static str, &'static str))
    ensures
        r.0@ == status_text(status),
        r.1@ == status_color(status),
{
    match status {
        Some(MaintenanceStatus::ActivelyDeveloped) => ("actively-developed", "brightgreen"),
        Some(MaintenanceStatus::PassivelyMaintained) => ("passively-maintained", "yellowgreen"),
        Some(MaintenanceStatus::AsIs) => ("as-is", "yellow"),
        Some(MaintenanceStatus::NotSpecified) => ("unknown", "lightgrey"),
        Some(MaintenanceStatus::Experimental) => ("experimental", "blue"),
        Some(MaintenanceStatus::LookingForMaintainer) => ("looking-for-maintainer", "orange"),
        Some(MaintenanceStatus::Deprecated) => ("deprecated", "red"),
        None => ("unknown", "lightgrey"),
    }
}

/// The SVG text that the `badge` crate renders for a subject, a status and
/// a color.
pub uninterp spec fn badge_svg(subject: Seq<char>, status: Seq<char>, color: Seq<char>) -> Seq<char>;

/// `badge::Badge::new(options)` and `to_svg`. `Badge::new` refuses an empty
/// subject or status, which `requires` rules out; the rendering is named.
#[verifier::external_body]
fn render_badge(subject: &str, status: &str, color: &str) -> (svg: String)
    requires
        subject@.len() > 0,
        status@.len() > 0,
    ensures
        svg@ == badge_svg(subject@, status@, color@),
{
    let options = badge::BadgeOptions {
        subject: subject.to_owned(),
        status: status.to_owned(),
        color: color.to_owned(),
    };
    badge::Badge::new(options).expect("subject and status are not empty").to_svg()
}

/// The maintenance badge of a crate with this status (`unknown` without one).
pub fn generate_badge(status: Option<MaintenanceStatus>) -> (svg: String)
    ensures
        svg@ == badge_svg("maintenance"@, status_text(status), status_color(status)),
{
    let (text, color) = badge_text_and_color(status);
    proof {
        reveal_strlit("maintenance");
        reveal_strlit("actively-developed");
        reveal_strlit("passively-maintained");
        reveal_strlit("as-is");
        reveal_strlit("unknown");
        reveal_strlit("experimental");
        reveal_strlit("looking-for-maintainer");
        reveal_strlit("deprecated");
    }
    render_badge("maintenance", text, color)
}

} // verus!
