use vstd::prelude::*;
use handlebars::Handlebars;
use serde_json::Value;

verus! {

/// The values filled into a template, by name; a name without a value is rendered
/// as JSON null.
pub open spec fn template_data_view(data: Seq<(String, Option<String>)>) -> Seq<(Seq<char>, Option<Seq<char>>)> {
    data.map_values(|p: (String, Option<String>)| (p.0@, match p.1 { Some(v) => Some(v@), None => None }))
}

/// The text that a fresh handlebars registry renders from `template` with a JSON
/// object of the given string (or null) values, or `None` where rendering fails.
pub uninterp spec fn handlebars_render(template: Seq<char>, data: Seq<(Seq<char>, Option<Seq<char>>)>) -> Option<Seq<char>>;

/// Renders a template with `handlebars::Registry::render_template` on a new registry
/// (default helpers, HTML escaping, non-strict), the values given as a JSON object
/// whose absent values are null. The contract claims only that the result is the
/// one `handlebars_render` names for these arguments; what rendering does with the
/// template is left to handlebars.
#[verifier::external_body]
pub(crate) fn render_template(template: &str, data: &Vec<(String, Option<String>)>) -> (r: Option<String>)
    ensures
        match r {
            Some(s) => handlebars_render(template@, template_data_view(data@)) == Some(s@),
            None => handlebars_render(template@, template_data_view(data@)) is None,
        },
{
    let mut map = serde_json::Map::new();
    for (key, value) in data.iter() {
        let v = match value {
            Some(s) => Value::String(s.clone()),
            None => Value::Null,
        };
        map.insert(key.clone(), v);
    }
    Handlebars::new().render_template(template, &Value::Object(map)).ok()
}

} // verus!
