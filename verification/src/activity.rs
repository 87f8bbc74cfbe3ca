//! The rich-presence activity that this library shows for itself.

use vstd::prelude::*;

verus! {

/// When an activity started and when it ends, in seconds since the epoch.
#[derive(Debug, Clone, Copy, PartialEq, Eq, Structural)]
pub struct Timestamps {
    pub start: Option<i64>,
    pub end: Option<i64>,
}

/// The images of an activity and the texts shown over them.
#[derive(Debug, Clone, Copy)]
pub struct Assets {
    pub large_image: Option<&'static str>,
    pub large_text: Option<&'static str>,
    pub small_image: Option<&'static str>,
    pub small_text: Option<&'static str>,
}

/// A button of an activity: its label and the page it opens.
#[derive(Debug, Clone, Copy)]
pub struct Button {
    pub label: &'static str,
    pub url: &'static str,
}

/// What a user is shown to be doing.
#[derive(Debug, Clone)]
pub struct Activity {
    pub state: Option<&'static str>,
    pub timestamps: Option<Timestamps>,
    pub assets: Option<Assets>,
    pub buttons: Vec<Button>,
}

/// Whether an optional text is there and reads `text`.
pub open spec fn reads(field: Option<&'static str>, text: Seq<char>) -> bool {
    field is Some && field->Some_0@ == text
}

/// The activity of this library, started at `start` seconds since the epoch.
pub fn titanium_activity(start: i64) -> (r: Activity)
    ensures
        reads(r.state, "Universal Game Client"@),
        r.timestamps == Some(Timestamps { start: Some(start), end: None }),
        r.assets is Some,
        reads(r.assets->Some_0.large_image, "titanium"@),
        reads(r.assets->Some_0.large_text, "Titanium Client"@),
        reads(r.assets->Some_0.small_image, "dbug"@),
        reads(r.assets->Some_0.small_text, "Developing"@),
        r.buttons@.len() == 2,
        r.buttons@[0].label@ == "GitHub"@,
        r.buttons@[0].url@ == "https://github.com/TBBOFBD/Titanium"@,
        r.buttons@[1].label@ == "Discord"@,
        r.buttons@[1].url@ == "https://discord.gg/mh9VYsCrPT"@,
{
    let mut buttons: Vec<Button> = Vec::new();
    buttons.push(Button { label: "GitHub", url: "https://github.com/TBBOFBD/Titanium" });
    buttons.push(Button { label: "Discord", url: "https://discord.gg/mh9VYsCrPT" });
    Activity {
        state: Some("Universal Game Client"),
        timestamps: Some(Timestamps { start: Some(start), end: None }),
        assets: Some(
            Assets {
                large_image: Some("titanium"),
                large_text: Some("Titanium Client"),
                small_image: Some("dbug"),
                small_text: Some("Developing"),
            },
        ),
        buttons,
    }
}

} // verus!
