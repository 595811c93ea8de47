//! Media events: a tagged payload with one variant.

use crate::api::events::requests::{CameraSnapshot, CameraSnapshotModel};
use crate::json::{items_model, lookup, JsonModel, JsonObject, JsonValue};
use crate::schema::{entry, put_json};
use crate::text::text_eq;
use vstd::prelude::*;

verus! {

/// A media event. On the wire it is an object that names the variant under
/// `type` and holds its content under `data`, or the two as an array.
#[derive(Debug, PartialEq, Eq)]
pub enum MediaEvent {
    CameraSnapshot(CameraSnapshot),
}

/// The model of [`MediaEvent`].
pub enum MediaEventModel {
    CameraSnapshot(CameraSnapshotModel),
}

impl DeepView for MediaEvent {
    type V = MediaEventModel;

    open spec fn deep_view(&self) -> MediaEventModel {
        match self {
            MediaEvent::CameraSnapshot(snapshot) => MediaEventModel::CameraSnapshot(
                snapshot.deep_view(),
            ),
        }
    }
}

impl MediaEventModel {
    /// The event that a variant name and a content stand for.
    pub open spec fn tagged(tag: JsonModel, content: JsonModel) -> Option<MediaEventModel> {
        if tag == JsonModel::String("cameraSnapshot"@) {
            match CameraSnapshotModel::decoded(content) {
                Some(snapshot) => Some(MediaEventModel::CameraSnapshot(snapshot)),
                None => None,
            }
        } else {
            None
        }
    }

    /// What a document decodes to. An object needs `type` and `data` and may
    /// hold other fields, which are not kept; an array needs exactly the
    /// variant name and the content.
    pub open spec fn decoded(m: JsonModel) -> Option<MediaEventModel> {
        match m {
            JsonModel::Object(o) => match (lookup(o, "type"@), lookup(o, "data"@)) {
                (Some(tag), Some(content)) => Self::tagged(tag, content),
                _ => None,
            },
            JsonModel::Array(items) => if items.len() == 2 {
                Self::tagged(items[0], items[1])
            } else {
                None
            },
            _ => None,
        }
    }

    /// The document that an event is written as: the object form.
    pub open spec fn encoded(self) -> JsonModel {
        match self {
            MediaEventModel::CameraSnapshot(snapshot) => JsonModel::Object(
                entry("type"@, JsonModel::String("cameraSnapshot"@)) + entry(
                    "data"@,
                    snapshot.encoded(),
                ),
            ),
        }
    }
}

impl MediaEvent {
    /// Reads the event that a variant name and a content stand for.
    fn tagged(tag: &JsonValue, content: &JsonValue) -> (r: Option<MediaEvent>)
        ensures
            r.deep_view() == MediaEventModel::tagged(tag@, content@),
    {
        match tag {
            JsonValue::String(name) => {
                if text_eq(name.as_str(), "cameraSnapshot") {
                    match CameraSnapshot::decode(content) {
                        Some(snapshot) => Some(MediaEvent::CameraSnapshot(snapshot)),
                        None => None,
                    }
                } else {
                    None
                }
            },
            _ => None,
        }
    }

    /// Decodes a document.
    pub fn decode(value: &JsonValue) -> (r: Option<MediaEvent>)
        ensures
            r.deep_view() == MediaEventModel::decoded(value@),
    {
        match value {
            JsonValue::Object(o) => match (o.get("type"), o.get("data")) {
                (Some(tag), Some(content)) => Self::tagged(tag, content),
                _ => None,
            },
            JsonValue::Array(items) => {
                assert(items_model(items@).len() == items@.len());
                if items.len() == 2 {
                    assert(items_model(items@)[0] == items@[0]@);
                    assert(items_model(items@)[1] == items@[1]@);
                    Self::tagged(&items[0], &items[1])
                } else {
                    None
                }
            },
            _ => None,
        }
    }

    /// Encodes the event as a document.
    pub fn encode(&self) -> (r: JsonValue)
        ensures
            r@ == self.deep_view().encoded(),
    {
        match self {
            MediaEvent::CameraSnapshot(snapshot) => {
                let mut o = JsonObject::new();
                put_json(&mut o, "type", JsonValue::text("cameraSnapshot"));
                put_json(&mut o, "data", snapshot.encode());
                let r = JsonValue::Object(o);
                assert(r@->Object_0 =~= self.deep_view().encoded()->Object_0);
                r
            },
        }
    }
}

} // verus!
