use vstd::prelude::*;

verus! {

/// One row of the video-controller enumeration: what the management-query
/// subsystem reports about an installed GPU. The underlying system may leave
/// any field unreported, so every field is optional.
#[derive(Debug)]
pub struct VideoController {
    pub name: Option<String>,
    pub driver_version: Option<String>,
    pub status: Option<String>,
}

/// The mathematical value of a [`VideoController`]: each text field as a
/// sequence of characters.
pub struct VideoControllerModel {
    pub name: Option<Seq<char>>,
    pub driver_version: Option<Seq<char>>,
    pub status: Option<Seq<char>>,
}

/// One row of the plug-and-play entity lookup, used to bridge a
/// human-readable device name to its stable instance identifier.
#[derive(Debug)]
pub struct PnpEntity {
    pub name: Option<String>,
    pub pnp_device_id: Option<String>,
}

/// The mathematical value of a [`PnpEntity`].
pub struct PnpEntityModel {
    pub name: Option<Seq<char>>,
    pub pnp_device_id: Option<Seq<char>>,
}

/// The mathematical value of an optional text field.
pub open spec fn text_model(t: Option<String>) -> Option<Seq<char>> {
    match t {
        Option::Some(s) => Option::Some(s@),
        Option::None => Option::None,
    }
}

impl View for VideoController {
    type V = VideoControllerModel;

    open spec fn view(&self) -> VideoControllerModel {
        VideoControllerModel {
            name: text_model(self.name),
            driver_version: text_model(self.driver_version),
            status: text_model(self.status),
        }
    }
}

impl View for PnpEntity {
    type V = PnpEntityModel;

    open spec fn view(&self) -> PnpEntityModel {
        PnpEntityModel {
            name: text_model(self.name),
            pnp_device_id: text_model(self.pnp_device_id),
        }
    }
}

/// The mathematical value of a list of lookup rows.
pub open spec fn entities_model(rows: Seq<PnpEntity>) -> Seq<PnpEntityModel> {
    rows.map_values(|r: PnpEntity| r@)
}

} // verus!
