//! The configuration data the panel renders, and its mathematical models.

use vstd::prelude::*;

verus! {

/// Mathematical model of a configuration entry: its display name and its
/// key/value pairs in declaration order.
pub ghost struct EntryModel {
    pub name: Seq<char>,
    pub pairs: Seq<(Seq<char>, Seq<char>)>,
}

/// A named host-style record: a full display name and an ordered mapping
/// from configuration key to configuration value. Key order is significant
/// and preserved in the rendered output.
#[derive(Clone, Debug)]
pub struct ConfigEntry {
    pub full_name: String,
    pub host_config: Vec<(String, String)>,
}

impl View for ConfigEntry {
    type V = EntryModel;

    open spec fn view(&self) -> EntryModel {
        EntryModel {
            name: self.full_name@,
            pairs: self.host_config@.map_values(|p: (String, String)| (p.0@, p.1@)),
        }
    }
}

/// An ordered collection of entries, used for organizational display only.
#[derive(Clone, Debug)]
pub struct ConfigGroup {
    pub items: Vec<ConfigEntry>,
}

impl View for ConfigGroup {
    type V = Seq<EntryModel>;

    open spec fn view(&self) -> Seq<EntryModel> {
        self.items@.map_values(|e: ConfigEntry| e@)
    }
}

/// The root configuration source: an ordered collection of groups, read-only
/// from the renderer's perspective.
#[derive(Clone, Debug)]
pub struct ConfigStore {
    pub groups: Vec<ConfigGroup>,
}

impl View for ConfigStore {
    type V = Seq<Seq<EntryModel>>;

    open spec fn view(&self) -> Seq<Seq<EntryModel>> {
        self.groups@.map_values(|g: ConfigGroup| g@)
    }
}

/// Selects the rendering scope of one pass: the single selected entry, or
/// every entry across every group.
#[derive(Clone, Copy, Debug, PartialEq, Eq, Structural)]
pub enum DisplayMode {
    ShowSelected,
    ShowAll,
}

} // verus!
