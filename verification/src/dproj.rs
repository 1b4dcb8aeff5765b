//! What a debug target reads of a `.dproj`, evaluated by `dproj-rs`.

use vstd::prelude::*;

use crate::table::Table;
use crate::text;

verus! {

/// The merged properties of a dproj for one configuration and platform, as far
/// as a debug target depends on them, with their `$(…)` references expanded.
pub struct PropertyGroup {
    /// `GenDll`: whether the project builds a DLL.
    pub gen_dll: Option<String>,
    /// `DCC_BplOutput`.
    pub bpl_output: Option<String>,
    /// `DCC_DcpOutput`.
    pub dcp_output: Option<String>,
    /// `DCC_UnitSearchPath`.
    pub unit_search_path: Option<String>,
    /// `DCC_IncludePath`.
    pub include_path: Option<String>,
    /// The elements that `dproj-rs` has no field for, by tag.
    pub other: Table<String>,
}

/// The texts of a [`PropertyGroup`].
#[verifier::ext_equal]
pub struct GroupView {
    pub gen_dll: Option<Seq<char>>,
    pub bpl_output: Option<Seq<char>>,
    pub dcp_output: Option<Seq<char>>,
    pub unit_search_path: Option<Seq<char>>,
    pub include_path: Option<Seq<char>>,
    pub other: Map<Seq<char>, Seq<char>>,
}

impl View for PropertyGroup {
    type V = GroupView;

    open spec fn view(&self) -> GroupView {
        GroupView {
            gen_dll: text::opt(self.gen_dll),
            bpl_output: text::opt(self.bpl_output),
            dcp_output: text::opt(self.dcp_output),
            unit_search_path: text::opt(self.unit_search_path),
            include_path: text::opt(self.include_path),
            other: self.other@,
        }
    }
}

/// The texts of a property group that there may be.
pub open spec fn group_opt(group: Option<PropertyGroup>) -> Option<GroupView> {
    match group {
        Some(group) => Some(group@),
        None => None,
    }
}

/// The texts of a property group, or of the error that there is none.
pub open spec fn group_outcome(group: Result<PropertyGroup, String>) -> Result<
    GroupView,
    Seq<char>,
> {
    match group {
        Ok(group) => Ok(group@),
        Err(error) => Err(error@),
    }
}

/// Why `DprojBuilder::parse` refuses a dproj's XML, if it does.
pub uninterp spec fn dproj_parse_error(source: Seq<char>) -> Option<Seq<char>>;

/// What `Dproj::active_configuration` gives for a dproj's XML.
pub uninterp spec fn dproj_configuration(source: Seq<char>) -> Result<Seq<char>, Seq<char>>;

/// What `Dproj::active_platform` gives for a dproj's XML.
pub uninterp spec fn dproj_platform(source: Seq<char>) -> Result<Seq<char>, Seq<char>>;

/// What `Dproj::active_property_group_for` gives for a dproj's XML, the
/// environment it is evaluated in, a configuration and a platform.
pub uninterp spec fn dproj_group(
    source: Seq<char>,
    env: Map<Seq<char>, Seq<char>>,
    config: Seq<char>,
    platform: Seq<char>,
) -> Result<GroupView, Seq<char>>;

/// `dproj_rs::DprojBuilder::parse`: the message of the error with which it
/// refuses `source`, which depends on that text alone.
#[verifier::external_body]
pub(crate) fn parse_error(source: &str) -> (res: Option<String>)
    ensures
        text::opt(res) == dproj_parse_error(source@),
{
    dproj_rs::DprojBuilder::new().parse(source).err().map(|error| error.message)
}

/// `dproj_rs::Dproj::active_configuration` of the dproj parsed from `source`:
/// the configuration of its unconditional property groups, or an error's
/// message.
#[verifier::external_body]
pub(crate) fn active_configuration(source: &str) -> (res: Result<String, String>)
    ensures
        text::outcome(res) == dproj_configuration(source@),
{
    let dproj = dproj_rs::DprojBuilder::new().parse(source).map_err(|error| error.message)?;
    dproj.active_configuration().map_err(|error| error.message)
}

/// `dproj_rs::Dproj::active_platform` of the dproj parsed from `source`: the
/// platform of its unconditional property groups, or an error's message.
#[verifier::external_body]
pub(crate) fn active_platform(source: &str) -> (res: Result<String, String>)
    ensures
        text::outcome(res) == dproj_platform(source@),
{
    let dproj = dproj_rs::DprojBuilder::new().parse(source).map_err(|error| error.message)?;
    dproj.active_platform().map_err(|error| error.message)
}

/// `dproj_rs::Dproj::active_property_group_for` of the dproj parsed from
/// `source` with the environment `env`: the properties merged for `config` and
/// `platform`, or an error's message. It touches neither disk nor process
/// environment; the path syntax of `MainSource` is that of the platform
/// compiled for.
#[verifier::external_body]
pub(crate) fn property_group(
    source: &str,
    env: Table<String>,
    config: &str,
    platform: &str,
) -> (res: Result<PropertyGroup, String>)
    ensures
        group_outcome(res) == dproj_group(source@, env@, config@, platform@),
{
    let builder = dproj_rs::DprojBuilder::new().env(env.pairs.into_iter().collect());
    let dproj = builder.parse(source).map_err(|error| error.message)?;
    let group = dproj.active_property_group_for(config, platform).map_err(|error| error.message)?;
    Ok(PropertyGroup {
        gen_dll: group.project_properties.gen_dll,
        bpl_output: group.dcc_options.bpl_output,
        dcp_output: group.dcc_options.dcp_output,
        unit_search_path: group.dcc_options.unit_search_path,
        include_path: group.dcc_options.include_path,
        other: Table { pairs: group.other.into_iter().collect() },
    })
}

} // verus!
