//! What the configuration files say, once they have been read.

use crate::util::map::StringMap;
use crate::util::string::clone_opt_string;
use vstd::prelude::*;

verus! {

/// The configuration of the program itself.
#[derive(Debug)]
pub struct SysConfig {
    pub log_level: Option<String>,
    pub sources: Option<Vec<StringMap>>,
}

/// The configuration that is used where no file is found: log level `INFO`
/// and no sources.
pub fn make_default_config() -> (config: SysConfig)
    ensures
        config.log_level.deep_view() == Some("INFO"@),
        config.sources is None,
{
    SysConfig { log_level: Some("INFO".to_owned()), sources: None }
}

/// The manifest of a template.
#[derive(Debug)]
pub struct TemplateConfig {
    pub project: TemplateConfigProject,
    pub variables: Option<TemplateConfigVariableMap>,
}

/// What a manifest says of the project.
#[derive(Debug)]
pub struct TemplateConfigProject {
    pub default_lang: Option<String>,
}

impl Clone for TemplateConfigProject {
    fn clone(&self) -> (copy: Self)
        ensures
            copy.default_lang.deep_view() == self.default_lang.deep_view(),
    {
        TemplateConfigProject { default_lang: clone_opt_string(&self.default_lang) }
    }
}

/// A value of the table of variables in a manifest.
#[derive(Debug)]
pub enum VariableValue {
    /// A string: its text.
    Text(String),
    /// Any other value: the way it is written in the manifest's notation.
    Other(String),
}

impl VariableValue {
    /// The text that stands for the value among the variables: the text of
    /// a string, the notation of anything else.
    pub open spec fn text(self) -> Seq<char> {
        match self {
            VariableValue::Text(text) => text@,
            VariableValue::Other(notation) => notation@,
        }
    }
}

/// The map that a list of variables gives: each key with the text of its
/// value, a later entry in place of an earlier one with the same key.
pub open spec fn variables_map(values: Seq<(String, VariableValue)>) -> Map<Seq<char>, Seq<char>>
    decreases values.len(),
{
    if values.len() == 0 {
        Map::empty()
    } else {
        variables_map(values.drop_last()).insert(values.last().0@, values.last().1.text())
    }
}

/// The default variables of a template, all of them as text.
#[derive(Debug)]
pub struct TemplateConfigVariableMap(StringMap);

impl View for TemplateConfigVariableMap {
    type V = Map<Seq<char>, Seq<char>>;

    closed spec fn view(&self) -> Map<Seq<char>, Seq<char>> {
        self.0@
    }
}

impl TemplateConfigVariableMap {
    /// The variables of a manifest: strings are kept, every other value is
    /// kept in its notation.
    pub fn from_values(values: Vec<(String, VariableValue)>) -> (variables: Self)
        ensures
            variables@ == variables_map(values@),
    {
        let mut map = StringMap::new();
        let mut i: usize = 0;
        assert(values@.take(0) =~= Seq::empty());
        while i < values.len()
            invariant
                i <= values@.len(),
                map@ == variables_map(values@.take(i as int)),
            decreases values@.len() - i,
        {
            let key = values[i].0.clone();
            let text = match &values[i].1 {
                VariableValue::Text(text) => text.clone(),
                VariableValue::Other(notation) => notation.clone(),
            };
            map.insert(key, text);
            proof {
                let longer = values@.take(i as int + 1);
                assert(longer.drop_last() =~= values@.take(i as int));
                assert(longer.last() == values@[i as int]);
            }
            i += 1;
        }
        assert(values@.take(i as int) =~= values@);
        TemplateConfigVariableMap(map)
    }

    /// The variables as a map.
    pub fn as_map(&self) -> (map: &StringMap)
        ensures
            map@ == self@,
    {
        &self.0
    }
}

} // verus!
