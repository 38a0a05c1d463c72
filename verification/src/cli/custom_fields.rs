//! Arguments of the `custom-fields` commands.

use vstd::prelude::*;

verus! {

/// Manage custom field definitions — the type source for --custom-field
/// writing (each definition names a field, its entity, and its type).
#[derive(Debug)]
pub enum CustomFieldsCommands {
    /// Create a custom field definition (position is assigned automatically)
    Create(CustomFieldsCreateArgs),
}

#[derive(Debug)]
pub struct CustomFieldsCreateArgs {
    /// Entity type the field belongs to — deal(s), organization(s)/orgs, person/people, activity/activities
    pub entity_type: Option<String>,
    /// The definition name — the key used in --custom-field <key>=<value>
    pub key: Option<String>,
    /// Field type: text, number, boolean, date, single_select (alias: select), multi_select, file, url, lookup, formula
    pub field_type: Option<String>,
    /// Comma-separated options for select/single_select/multi_select — becomes config.options
    pub options: Option<Vec<String>>,
    /// Mark the field as required on records
    pub required: bool,
    /// Show the field in list views for the entity
    pub show_in_list: bool,
    /// Read a raw JSON body from stdin (full control, verbatim)
    pub stdin: bool,
}

/// The arguments of `custom-fields update`. `position` is the new position
/// as the JSON number text it is sent as.
#[derive(Debug)]
pub struct CustomFieldsUpdateArgs {
    /// The definition ID
    pub definition_id: String,
    /// New definition name
    pub name: Option<String>,
    /// New config, as a raw JSON object
    pub config: Option<String>,
    /// Mark the field as required
    pub required: bool,
    /// Mark the field as optional
    pub no_required: bool,
    /// Show the field in list views
    pub show_in_list: bool,
    /// Hide the field from list views
    pub no_show_in_list: bool,
    /// New position
    pub position: Option<String>,
    /// Read a raw JSON object from stdin (immutable keys are stripped)
    pub stdin: bool,
}

} // verus!
