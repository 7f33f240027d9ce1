//! Texts for the chat-presence collaborator.
//!
//! The presence client itself is an external collaborator: it marshals an
//! activity update over a local IPC channel. This module computes every
//! value of that update that the application decides: which client id the
//! connection uses, the image key, and the state and details lines shown
//! for the currently playing beat.

use vstd::prelude::*;
use vstd::string::StringExecFns;

verus! {

/// Details of the currently playing beat.
#[derive(Debug)]
pub struct BeatDetails {
    /// Name of the beat.
    pub name: Option<String>,
    /// Producer or artist of the beat.
    pub producer: Option<String>,
    /// Icon or cover art of the beat.
    pub icon: Option<String>,
}

/// Mathematical value of a [`BeatDetails`].
#[verifier::ext_equal]
pub ghost struct BeatDetailsModel {
    pub name: Option<Seq<char>>,
    pub producer: Option<Seq<char>>,
    pub icon: Option<Seq<char>>,
}

impl View for BeatDetails {
    type V = BeatDetailsModel;

    open spec fn view(&self) -> BeatDetailsModel {
        BeatDetailsModel {
            name: match self.name {
                Some(ref n) => Some(n@),
                None => None,
            },
            producer: match self.producer {
                Some(ref p) => Some(p@),
                None => None,
            },
            icon: match self.icon {
                Some(ref i) => Some(i@),
                None => None,
            },
        }
    }
}

/// The texts of one presence update, ready for the IPC call.
#[derive(Debug)]
pub struct ActivityTexts {
    pub state: String,
    pub details: String,
    pub large_image_key: String,
}

/// Mathematical value of an [`ActivityTexts`].
#[verifier::ext_equal]
pub ghost struct ActivityTextsModel {
    pub state: Seq<char>,
    pub details: Seq<char>,
    pub large_image_key: Seq<char>,
}

impl View for ActivityTexts {
    type V = ActivityTextsModel;

    open spec fn view(&self) -> ActivityTextsModel {
        ActivityTextsModel {
            state: self.state@,
            details: self.details@,
            large_image_key: self.large_image_key@,
        }
    }
}

/// The client id the presence connection uses when the caller supplies
/// none.
pub open spec fn default_client_id_spec() -> Seq<char> {
    "1313938550235856971"@
}

/// The beat name shown: the given one, or a fixed fallback.
pub open spec fn beat_name_text(bd: Option<BeatDetailsModel>) -> Seq<char> {
    match bd {
        Some(d) => match d.name {
            Some(n) => n,
            None => "Unknown Beat"@,
        },
        None => "Unknown Beat"@,
    }
}

/// The producer shown: the given one, or a fixed fallback.
pub open spec fn producer_text(bd: Option<BeatDetailsModel>) -> Seq<char> {
    match bd {
        Some(d) => match d.producer {
            Some(p) => p,
            None => "Unknown Artist"@,
        },
        None => "Unknown Artist"@,
    }
}

/// The state line of an update.
pub open spec fn state_spec(show_playing_beat: bool, bd: Option<BeatDetailsModel>) -> Seq<char> {
    if show_playing_beat {
        "🎵 "@ + beat_name_text(bd)
    } else {
        "Listening to Music"@
    }
}

/// The details line of an update.
pub open spec fn details_spec(show_playing_beat: bool, bd: Option<BeatDetailsModel>) -> Seq<char> {
    if show_playing_beat {
        "👤 "@ + producer_text(bd)
    } else {
        "BeatForge"@
    }
}

/// Determines the large image key used for a presence update. The
/// current design shows the standard logo key whatever the given image
/// path or identifier is.
pub fn truncate_or_hash_image_key(image_key: &str) -> (r: String)
    ensures
        r@ == "beatforge_logo"@,
{
    if !image_key.is_empty() {
        "beatforge_logo".to_owned()
    } else {
        "beatforge_logo".to_owned()
    }
}

/// The client id the presence connection is opened with: the caller's
/// custom id, or the default one.
pub fn resolve_client_id(custom_client_id: Option<String>) -> (r: String)
    ensures
        match custom_client_id {
            Some(id) => r@ == id@,
            None => r@ == default_client_id_spec(),
        },
{
    match custom_client_id {
        Some(id) => id,
        None => "1313938550235856971".to_owned(),
    }
}

/// Computes the texts of one presence update: with `show_playing_beat`
/// the state and details name the beat and its producer, with fixed
/// fallbacks where details are missing; without it a fixed pair is
/// shown. The image key is the standard logo key either way.
pub fn activity_texts(show_playing_beat: bool, beat_details: &Option<BeatDetails>) -> (r:
    ActivityTexts)
    ensures
        ({
            let bd = match *beat_details {
                Some(ref d) => Some(d@),
                None => None,
            };
            &&& r@.state == state_spec(show_playing_beat, bd)
            &&& r@.details == details_spec(show_playing_beat, bd)
            &&& r@.large_image_key == "beatforge_logo"@
        }),
{
    let large_image_key = match beat_details {
        Some(d) => match &d.icon {
            Some(icon) => truncate_or_hash_image_key(icon.as_str()),
            None => "beatforge_logo".to_owned(),
        },
        None => "beatforge_logo".to_owned(),
    };
    if show_playing_beat {
        let beat_name = match beat_details {
            Some(d) => match &d.name {
                Some(n) => n.clone(),
                None => "Unknown Beat".to_owned(),
            },
            None => "Unknown Beat".to_owned(),
        };
        let producer = match beat_details {
            Some(d) => match &d.producer {
                Some(p) => p.clone(),
                None => "Unknown Artist".to_owned(),
            },
            None => "Unknown Artist".to_owned(),
        };
        let state = "🎵 ".to_owned().concat(beat_name.as_str());
        let details = "👤 ".to_owned().concat(producer.as_str());
        ActivityTexts { state, details, large_image_key }
    } else {
        ActivityTexts {
            state: "Listening to Music".to_owned(),
            details: "BeatForge".to_owned(),
            large_image_key,
        }
    }
}

} // verus!
