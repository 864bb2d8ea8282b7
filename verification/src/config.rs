//! The packaging settings of a package: what its manifest configures under
//! the keys `assets`, `auto_link`, `args` and `auto_link_exclude_list`.
//!
//! The manifest is read elsewhere. This module takes the four values as they
//! were found, of whatever type, and decides what they mean: a value of the
//! wrong type counts as absent, list items that are not text are dropped,
//! and every exclusion pattern must compile before any bundle is built.

use vstd::prelude::*;
use crate::exclude::{all_accepted, glob_accepts, ExclusionSet, InvalidPattern};

verus! {

/// An item of a configured list.
#[derive(Debug, Clone, PartialEq, Eq)]
pub enum Item {
    /// A string.
    Text(String),
    /// A value of any other type.
    Other,
}

/// The value found under one key of the configuration table.
#[derive(Debug, Clone, PartialEq, Eq)]
pub enum Setting {
    /// The key, or the table itself, is missing.
    Absent,
    /// A boolean.
    Flag(bool),
    /// An array.
    List(Vec<Item>),
    /// A value of any other type.
    Other,
}

/// The configuration table as found in the manifest.
#[derive(Debug, Clone, PartialEq, Eq)]
pub struct RawSettings {
    /// Paths to copy into the bundle root.
    pub assets: Setting,
    /// Whether to bundle the libraries that the binary depends on.
    pub auto_link: Setting,
    /// Extra arguments for the bundling tool.
    pub args: Setting,
    /// Glob patterns for libraries to leave out of the bundle.
    pub auto_link_exclude_list: Setting,
}

/// The settings that govern the packaging of every binary of a package.
#[derive(Debug)]
pub struct Settings {
    /// Paths to copy into the bundle root, files and directories alike.
    pub assets: Vec<String>,
    /// Whether to bundle the libraries that the binary depends on.
    pub auto_link: bool,
    /// Extra arguments for the bundling tool.
    pub args: Vec<String>,
    /// Which staged libraries to leave out of the bundle.
    pub exclusions: ExclusionSet,
}

/// What an `Item` stands for.
pub enum ItemValue {
    Text(Seq<char>),
    Other,
}

/// What a `Setting` stands for.
pub enum SettingValue {
    Absent,
    Flag(bool),
    List(Seq<ItemValue>),
    Other,
}

/// What a `RawSettings` stands for.
pub struct RawValues {
    pub assets: SettingValue,
    pub auto_link: SettingValue,
    pub args: SettingValue,
    pub auto_link_exclude_list: SettingValue,
}

/// What a `Settings` stands for.
pub struct SettingsValues {
    pub assets: Seq<Seq<char>>,
    pub auto_link: bool,
    pub args: Seq<Seq<char>>,
    pub exclusions: Seq<Seq<char>>,
}

impl View for Item {
    type V = ItemValue;

    open spec fn view(&self) -> ItemValue {
        match self {
            Item::Text(text) => ItemValue::Text(text@),
            Item::Other => ItemValue::Other,
        }
    }
}

impl DeepView for Item {
    type V = ItemValue;

    open spec fn deep_view(&self) -> ItemValue {
        self@
    }
}

impl View for Setting {
    type V = SettingValue;

    open spec fn view(&self) -> SettingValue {
        match self {
            Setting::Absent => SettingValue::Absent,
            Setting::Flag(flag) => SettingValue::Flag(*flag),
            Setting::List(items) => SettingValue::List(items.deep_view()),
            Setting::Other => SettingValue::Other,
        }
    }
}

impl View for RawSettings {
    type V = RawValues;

    open spec fn view(&self) -> RawValues {
        RawValues {
            assets: self.assets@,
            auto_link: self.auto_link@,
            args: self.args@,
            auto_link_exclude_list: self.auto_link_exclude_list@,
        }
    }
}

impl View for Settings {
    type V = SettingsValues;

    open spec fn view(&self) -> SettingsValues {
        SettingsValues {
            assets: self.assets.deep_view(),
            auto_link: self.auto_link,
            args: self.args.deep_view(),
            exclusions: self.exclusions@,
        }
    }
}

/// The strings among `items`, in their order.
pub open spec fn texts(items: Seq<ItemValue>) -> Seq<Seq<char>>
    decreases items.len(),
{
    if items.len() == 0 {
        Seq::empty()
    } else {
        match items.last() {
            ItemValue::Text(text) => texts(items.drop_last()).push(text),
            ItemValue::Other => texts(items.drop_last()),
        }
    }
}

/// The strings that a setting lists: those of an array, and none for a
/// value of any other type or none at all.
pub open spec fn listed(setting: SettingValue) -> Seq<Seq<char>> {
    match setting {
        SettingValue::List(items) => texts(items),
        _ => Seq::empty(),
    }
}

/// Whether a setting switches something on: only the boolean `true` does.
pub open spec fn enabled(setting: SettingValue) -> bool {
    setting == SettingValue::Flag(true)
}

/// What a configuration table means.
pub open spec fn resolved(raw: RawValues) -> SettingsValues {
    SettingsValues {
        assets: listed(raw.assets),
        auto_link: enabled(raw.auto_link),
        args: listed(raw.args),
        exclusions: listed(raw.auto_link_exclude_list),
    }
}

impl Setting {
    /// The strings that the setting lists.
    pub fn strings(&self) -> (found: Vec<String>)
        ensures
            found.deep_view() == listed(self@),
    {
        let mut found: Vec<String> = Vec::new();
        assert(found.deep_view() == Seq::<Seq<char>>::empty());
        match self {
            Setting::List(items) => {
                let ghost all = items.deep_view();
                let mut index: usize = 0;
                assert(all.take(0) == Seq::<ItemValue>::empty());
                while index < items.len()
                    invariant
                        index <= items.len(),
                        all == items.deep_view(),
                        found.deep_view() == texts(all.take(index as int)),
                    decreases items.len() - index,
                {
                    let ghost before = found.deep_view();
                    assert(all.take(index + 1).drop_last() == all.take(index as int));
                    assert(all.take(index + 1).last() == items[index as int]@);
                    match &items[index] {
                        Item::Text(text) => {
                            found.push(text.clone());
                            assert(found.deep_view() == before.push(text@));
                        },
                        Item::Other => {},
                    }
                    index += 1;
                }
                assert(all.take(index as int) == all);
            },
            _ => {},
        }
        found
    }

    /// Whether the setting is the boolean `true`.
    pub fn is_enabled(&self) -> (on: bool)
        ensures
            on == enabled(self@),
    {
        match self {
            Setting::Flag(flag) => *flag,
            _ => false,
        }
    }
}

impl RawSettings {
    /// The table of a manifest that configures nothing.
    pub fn absent() -> (raw: RawSettings)
        ensures
            raw@ == (RawValues {
                assets: SettingValue::Absent,
                auto_link: SettingValue::Absent,
                args: SettingValue::Absent,
                auto_link_exclude_list: SettingValue::Absent,
            }),
    {
        RawSettings {
            assets: Setting::Absent,
            auto_link: Setting::Absent,
            args: Setting::Absent,
            auto_link_exclude_list: Setting::Absent,
        }
    }

    /// Decides what the table means.
    ///
    /// This fails exactly if one of the listed exclusion patterns does not
    /// compile, and then reports the first such pattern by its position
    /// among the listed strings.
    pub fn resolve(&self) -> (settings: Result<Settings, InvalidPattern>)
        ensures
            settings is Ok <==> all_accepted(listed(self@.auto_link_exclude_list)),
            settings matches Ok(found) ==> found@ == resolved(self@),
            settings matches Err(fault) ==> {
                &&& fault.index < listed(self@.auto_link_exclude_list).len()
                &&& !glob_accepts(listed(self@.auto_link_exclude_list)[fault.index as int])
                &&& all_accepted(listed(self@.auto_link_exclude_list).take(fault.index as int))
            },
    {
        let patterns = self.auto_link_exclude_list.strings();
        let ghost listing = patterns.deep_view();
        match ExclusionSet::new(patterns) {
            Ok(exclusions) => Ok(
                Settings {
                    assets: self.assets.strings(),
                    auto_link: self.auto_link.is_enabled(),
                    args: self.args.strings(),
                    exclusions,
                },
            ),
            Err(fault) => {
                assert(listing[fault.index as int] == patterns[fault.index as int]@);
                Err(fault)
            },
        }
    }
}

} // verus!
