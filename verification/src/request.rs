//! Requests: the prompts with which the daemon asks for the user.

use crate::common::{KEY_APPSTREAM_ID, KEY_CREATED, KEY_PLUGIN, KEY_UPDATE_MESSAGE};
use crate::text::str_eq;
use crate::wire::{entries_view, lemma_items_view, Entry, WireModel, WireValue};
use vstd::prelude::*;
use vstd::string::*;

verus! {

/// A prompt for the user that a device raised during an update.
#[derive(Clone, Debug)]
pub struct Request {
    /// The AppStream identifier of the firmware that asks.
    pub appstream_id: String,
    /// When the request was made, in seconds since the epoch.
    pub created: u64,
    /// The plugin that raised the request.
    pub plugin: String,
    /// The code of the kind of request.
    pub request_kind: u32,
    /// The message for the user.
    pub update_message: String,
}

/// The mathematical content of a [`Request`].
pub ghost struct RequestModel {
    pub appstream_id: Seq<char>,
    pub created: u64,
    pub plugin: Seq<char>,
    pub request_kind: u32,
    pub update_message: Seq<char>,
}

impl View for Request {
    type V = RequestModel;

    open spec fn view(&self) -> RequestModel {
        RequestModel {
            appstream_id: self.appstream_id@,
            created: self.created,
            plugin: self.plugin@,
            request_kind: self.request_kind,
            update_message: self.update_message@,
        }
    }
}

/// The request of which nothing is known yet: what decoding starts from.
pub open spec fn blank_request() -> RequestModel {
    RequestModel {
        appstream_id: Seq::empty(),
        created: 0,
        plugin: Seq::empty(),
        request_kind: 0,
        update_message: Seq::empty(),
    }
}

/// The request `known` once the attribute `key` has arrived with `value`.
/// A key that names no attribute, and a value that does not fit its
/// attribute, leave the request as it is.
pub open spec fn request_with(
    known: RequestModel,
    key: Seq<char>,
    value: WireModel,
) -> RequestModel {
    if key == KEY_APPSTREAM_ID@ {
        match value.text {
            Some(text) => RequestModel { appstream_id: text, ..known },
            None => known,
        }
    } else if key == KEY_CREATED@ {
        match value.unsigned {
            Some(number) => RequestModel { created: number, ..known },
            None => known,
        }
    } else if key == KEY_PLUGIN@ {
        match value.text {
            Some(text) => RequestModel { plugin: text, ..known },
            None => known,
        }
    } else if key == "RequestKind"@ {
        match value.unsigned {
            Some(number) => if number <= u32::MAX {
                RequestModel { request_kind: number as u32, ..known }
            } else {
                known
            },
            None => known,
        }
    } else if key == KEY_UPDATE_MESSAGE@ {
        match value.text {
            Some(text) => RequestModel { update_message: text, ..known },
            None => known,
        }
    } else {
        known
    }
}

/// The request that a list of keyed values describes: the attributes are
/// taken in order, so a key that comes twice counts the second time.
pub open spec fn decode_request(entries: Seq<(Seq<char>, WireModel)>) -> RequestModel
    decreases entries.len(),
{
    if entries.len() == 0 {
        blank_request()
    } else {
        request_with(decode_request(entries.drop_last()), entries.last().0, entries.last().1)
    }
}

impl Default for Request {
    fn default() -> (blank: Request)
        ensures
            blank@ == blank_request(),
    {
        Request {
            appstream_id: String::new(),
            created: 0,
            plugin: String::new(),
            request_kind: 0,
            update_message: String::new(),
        }
    }
}

impl Request {
    /// Takes in one attribute, see [`request_with`].
    pub fn set(&mut self, key: &str, value: &WireValue)
        ensures
            final(self)@ == request_with(old(self)@, key@, value@),
    {
        proof {
            lemma_items_view(*value);
        }
        if str_eq(key, KEY_APPSTREAM_ID) {
            if let Some(text) = &value.text {
                self.appstream_id = text.clone();
            }
        } else if str_eq(key, KEY_CREATED) {
            if let Some(number) = value.unsigned {
                self.created = number;
            }
        } else if str_eq(key, KEY_PLUGIN) {
            if let Some(text) = &value.text {
                self.plugin = text.clone();
            }
        } else if str_eq(key, "RequestKind") {
            if let Some(number) = value.unsigned {
                if number <= 0xffff_ffff {
                    self.request_kind = number as u32;
                }
            }
        } else if str_eq(key, KEY_UPDATE_MESSAGE) {
            if let Some(text) = &value.text {
                self.update_message = text.clone();
            }
        }
    }

    /// Decodes a request from the keyed values of a notification, see
    /// [`decode_request`].
    pub fn from_entries(entries: &[Entry]) -> (request: Request)
        ensures
            request@ == decode_request(entries_view(entries@)),
    {
        let ghost all = entries_view(entries@);
        let mut request = Request::default();
        let mut i: usize = 0;
        assert(all.take(0) =~= Seq::empty());
        while i < entries.len()
            invariant
                i <= entries.len(),
                all == entries_view(entries@),
                request@ == decode_request(all.take(i as int)),
            decreases entries.len() - i,
        {
            proof {
                assert(all.take(i + 1).drop_last() =~= all.take(i as int));
                assert(all.take(i + 1).last() == (entries@[i as int].0@, entries@[i as int].1@));
            }
            request.set(entries[i].0.as_str(), &entries[i].1);
            i += 1;
        }
        assert(all.take(entries.len() as int) =~= all);
        request
    }
}

} // verus!
