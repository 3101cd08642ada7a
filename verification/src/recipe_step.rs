use vstd::prelude::*;
use vstd::string::*;
use crate::config::LanguageTag;
use crate::cooking::{CookingIngredient, CookingIngredientName,
    CookingIngredientTime, SmartSpeakerMaterialProperty, amount_text, approx_unit_of, human_time_text,
    ingredient_name_text, ingredient_template_code, material_of};
use crate::i18n::{SmartSpeakerI18nText, I18nView, i18n, text_in};
use crate::render::{render_template, handlebars_render, template_data_view};
use crate::task::tts_view;
use crate::text::concat3;

verus! {

/// `list` joined with `sep` between each two items.
pub open spec fn seq_join(list: Seq<Seq<char>>, sep: Seq<char>) -> Seq<char>
    decreases list.len(),
{
    if list.len() == 0 {
        Seq::empty()
    } else if list.len() == 1 {
        list[0]
    } else {
        seq_join(list.drop_last(), sep) + sep + list.last()
    }
}

/// The views of a list of strings.
pub open spec fn strings_view(v: Seq<String>) -> Seq<Seq<char>> {
    v.map_values(|s: String| s@)
}

/// Joins strings with a separator between each two.
pub fn join_strings(list: &Vec<String>, sep: &str) -> (r: String)
    ensures
        r@ == seq_join(strings_view(list@), sep@),
{
    let mut r = String::new();
    let mut i: usize = 0;
    while i < list.len()
        invariant
            i <= list@.len(),
            r@ == seq_join(strings_view(list@).take(i as int), sep@),
        decreases list@.len() - i,
    {
        let ghost before = r@;
        assert(strings_view(list@).take(i as int + 1).drop_last() =~= strings_view(list@).take(i as int));
        if i != 0 {
            r.append(sep);
        }
        r.append(list[i].as_str());
        proof {
            if i == 0 {
                assert(strings_view(list@).take(1) =~= seq![list@[0]@]);
                assert(r@ =~= list@[0]@);
            }
        }
        i = i + 1;
    }
    assert(strings_view(list@).take(list@.len() as int) =~= strings_view(list@));
    r
}

/// The first ingredient of the list with the given name.
pub open spec fn first_with_name(ings: Seq<CookingIngredient>, n: CookingIngredientName) -> Option<CookingIngredient>
    decreases ings.len(),
{
    if ings.len() == 0 {
        None
    } else if ings[0].name == n {
        Some(ings[0])
    } else {
        first_with_name(ings.drop_first(), n)
    }
}

/// The first ingredient of the list with the given name.
pub fn find_ingredient(ings: &Vec<CookingIngredient>, name: CookingIngredientName) -> (r: Option<CookingIngredient>)
    ensures
        r == first_with_name(ings@, name),
{
    let mut i: usize = 0;
    assert(ings@.subrange(0, ings@.len() as int) =~= ings@);
    while i < ings.len()
        invariant
            i <= ings@.len(),
            first_with_name(ings@, name) == first_with_name(ings@.subrange(i as int, ings@.len() as int), name),
        decreases ings@.len() - i,
    {
        let ghost rest = ings@.subrange(i as int, ings@.len() as int);
        assert(rest.drop_first() =~= ings@.subrange(i as int + 1, ings@.len() as int));
        if ings[i].name == name {
            return Some(ings[i]);
        }
        i = i + 1;
    }
    None
}

/// Values filled into a text template, by name.
pub type TemplateData = Seq<(Seq<char>, Option<Seq<char>>)>;

/// The texts of a template rendered in every language with the values each
/// language gets, or `None` where any rendering fails.
pub open spec fn render_with(tpl: I18nView, data: spec_fn(LanguageTag) -> TemplateData) -> Option<I18nView> {
    let en = handlebars_render(tpl.en, data(LanguageTag::English));
    let ja = handlebars_render(tpl.ja, data(LanguageTag::Japanese));
    let zh = handlebars_render(tpl.zh, data(LanguageTag::Chinese));
    let ko = handlebars_render(tpl.ko, data(LanguageTag::Korean));
    if en is Some && ja is Some && zh is Some && ko is Some {
        Some(i18n(en->0, ja->0, zh->0, ko->0))
    } else {
        None
    }
}

/// Renders each language's template with that language's values.
fn render_i18n(
    tpl: &SmartSpeakerI18nText,
    en: &Vec<(String, Option<String>)>,
    ja: &Vec<(String, Option<String>)>,
    zh: &Vec<(String, Option<String>)>,
    ko: &Vec<(String, Option<String>)>,
) -> (r: Option<SmartSpeakerI18nText>)
    ensures
        ({
            let e = handlebars_render(tpl.en@, template_data_view(en@));
            let j = handlebars_render(tpl.ja@, template_data_view(ja@));
            let z = handlebars_render(tpl.zh@, template_data_view(zh@));
            let k = handlebars_render(tpl.ko@, template_data_view(ko@));
            match r {
                Some(t) => e == Some(t.en@) && j == Some(t.ja@) && z == Some(t.zh@) && k == Some(t.ko@),
                None => !(e is Some && j is Some && z is Some && k is Some),
            }
        }),
{
    let e = render_template(tpl.en.as_str(), en);
    let j = render_template(tpl.ja.as_str(), ja);
    let z = render_template(tpl.zh.as_str(), zh);
    let k = render_template(tpl.ko.as_str(), ko);
    match (e, j, z, k) {
        (Some(e), Some(j), Some(z), Some(k)) => Some(SmartSpeakerI18nText::from_parts(e, j, z, k)),
        _ => None,
    }
}

/// How an ingredient is listed when the ingredients are explained: a solid with its
/// amount in pieces (amount first in English, name first otherwise), anything
/// else by name alone.
pub open spec fn explain_item(i: CookingIngredient, lang: LanguageTag) -> Seq<char> {
    let name = text_in(ingredient_name_text(i.name), lang);
    if material_of(i.name) == SmartSpeakerMaterialProperty::Solid {
        let amount = text_in(amount_text(approx_unit_of(i)), lang);
        if lang == LanguageTag::English { amount + " "@ + name } else { name + " "@ + amount }
    } else {
        name
    }
}

/// What is said between two listed ingredients.
pub open spec fn explain_separator(lang: LanguageTag) -> Seq<char> {
    match lang {
        LanguageTag::English => ".   ."@,
        LanguageTag::Korean => ".   ."@,
        _ => "、　　　、"@,
    }
}

/// The values for a template that lists the ingredients.
pub open spec fn ingredients_data(ings: Seq<CookingIngredient>, lang: LanguageTag) -> TemplateData {
    seq![("additional_explain"@, Some(seq_join(ings.map_values(|i: CookingIngredient| explain_item(i, lang)), explain_separator(lang))))]
}

/// The value for one ingredient's amount in a template: how the first ingredient of
/// that name is measured, if there is one.
pub open spec fn amount_entry(ings: Seq<CookingIngredient>, n: CookingIngredientName, lang: LanguageTag) -> (Seq<char>, Option<Seq<char>>) {
    (ingredient_template_code(n), match first_with_name(ings, n) {
        Some(i) => Some(text_in(amount_text(approx_unit_of(i)), lang)),
        None => None,
    })
}

/// The values for a template that gives the seasonings' amounts.
pub open spec fn amounts_data(ings: Seq<CookingIngredient>, lang: LanguageTag) -> TemplateData {
    seq![
        amount_entry(ings, CookingIngredientName::Salt, lang),
        amount_entry(ings, CookingIngredientName::Pepper, lang),
        amount_entry(ings, CookingIngredientName::Sugar, lang),
        amount_entry(ings, CookingIngredientName::SoySauce, lang),
        amount_entry(ings, CookingIngredientName::Sesame, lang),
        amount_entry(ings, CookingIngredientName::SesameOil, lang),
        amount_entry(ings, CookingIngredientName::Carrot, lang),
        amount_entry(ings, CookingIngredientName::Mayonnaise, lang),
    ]
}

/// The values for a template that gives a cooking time.
pub open spec fn time_data(t: u32, lang: LanguageTag) -> TemplateData {
    seq![("time"@, Some(text_in(human_time_text(t), lang)))]
}

fn explain_item_exec(i: &CookingIngredient, lang: LanguageTag) -> (r: String)
    ensures
        r@ == explain_item(*i, lang),
{
    let name = i.name.to_i18n().get(&lang);
    if i.name.to_material_property() == SmartSpeakerMaterialProperty::Solid {
        let amount = i.to_approx_unit_i18n().get(&lang);
        if lang == LanguageTag::English {
            concat3(amount.as_str(), " ", name.as_str())
        } else {
            concat3(name.as_str(), " ", amount.as_str())
        }
    } else {
        name
    }
}

fn explain_separator_exec(lang: LanguageTag) -> (r: &'static str)
    ensures
        r@ == explain_separator(lang),
{
    match lang {
        LanguageTag::English => ".   .",
        LanguageTag::Korean => ".   .",
        _ => "、　　　、",
    }
}

/// The values for a template that lists the ingredients, in one language.
pub fn ingredients_data_exec(ings: &Vec<CookingIngredient>, lang: LanguageTag) -> (r: Vec<(String, Option<String>)>)
    ensures
        template_data_view(r@) == ingredients_data(ings@, lang),
{
    let mut items: Vec<String> = Vec::new();
    let mut i: usize = 0;
    while i < ings.len()
        invariant
            i <= ings@.len(),
            strings_view(items@) =~= ings@.take(i as int).map_values(|x: CookingIngredient| explain_item(x, lang)),
        decreases ings@.len() - i,
    {
        let item = explain_item_exec(&ings[i], lang);
        let ghost before = items@;
        items.push(item);
        proof {
            let lhs = strings_view(items@);
            let rhs = ings@.take(i as int + 1).map_values(|x: CookingIngredient| explain_item(x, lang));
            let old_rhs = ings@.take(i as int).map_values(|x: CookingIngredient| explain_item(x, lang));
            assert(strings_view(before).len() == old_rhs.len());
            assert(before.len() == i);
            assert(items@.len() == i + 1);
            assert(lhs.len() == rhs.len());
            assert forall|k: int| 0 <= k < lhs.len() implies lhs[k] == rhs[k] by {
                if k < i {
                    assert(lhs[k] == strings_view(before)[k]);
                    assert(old_rhs[k] == rhs[k]);
                }
            }
            assert(lhs =~= rhs);
        }
        i = i + 1;
    }
    assert(ings@.take(ings@.len() as int) =~= ings@);
    let joined = join_strings(&items, explain_separator_exec(lang));
    let mut r: Vec<(String, Option<String>)> = Vec::new();
    r.push((String::from_str("additional_explain"), Some(joined)));
    assert(template_data_view(r@) =~= ingredients_data(ings@, lang));
    r
}

fn amount_entry_exec(ings: &Vec<CookingIngredient>, name: CookingIngredientName, lang: LanguageTag) -> (r: (String, Option<String>))
    ensures
        (r.0@, match r.1 { Some(v) => Some(v@), None => None }) == amount_entry(ings@, name, lang),
{
    let value = match find_ingredient(ings, name) {
        Some(i) => Some(i.to_approx_unit_i18n().get(&lang)),
        None => None,
    };
    (name.to_template_code(), value)
}

/// The values for a template that gives the seasonings' amounts, in one language.
pub fn amounts_data_exec(ings: &Vec<CookingIngredient>, lang: LanguageTag) -> (r: Vec<(String, Option<String>)>)
    ensures
        template_data_view(r@) == amounts_data(ings@, lang),
{
    let mut r: Vec<(String, Option<String>)> = Vec::new();
    r.push(amount_entry_exec(ings, CookingIngredientName::Salt, lang));
    r.push(amount_entry_exec(ings, CookingIngredientName::Pepper, lang));
    r.push(amount_entry_exec(ings, CookingIngredientName::Sugar, lang));
    r.push(amount_entry_exec(ings, CookingIngredientName::SoySauce, lang));
    r.push(amount_entry_exec(ings, CookingIngredientName::Sesame, lang));
    r.push(amount_entry_exec(ings, CookingIngredientName::SesameOil, lang));
    r.push(amount_entry_exec(ings, CookingIngredientName::Carrot, lang));
    r.push(amount_entry_exec(ings, CookingIngredientName::Mayonnaise, lang));
    assert(template_data_view(r@) =~= amounts_data(ings@, lang));
    r
}

/// The values for a template that gives a cooking time, in one language.
pub fn time_data_exec(time: &CookingIngredientTime, lang: LanguageTag) -> (r: Vec<(String, Option<String>)>)
    ensures
        template_data_view(r@) == time_data(time.time, lang),
{
    let mut r: Vec<(String, Option<String>)> = Vec::new();
    r.push((String::from_str("time"), Some(time.to_human_time().get(&lang))));
    assert(template_data_view(r@) =~= time_data(time.time, lang));
    r
}

/// The values for a template that says how a measurement came out.
pub open spec fn measure_data(phrase: I18nView, lang: LanguageTag) -> TemplateData {
    seq![("measure_result"@, Some(text_in(phrase, lang)))]
}

fn measure_data_exec(phrase: &SmartSpeakerI18nText, lang: LanguageTag) -> (r: Vec<(String, Option<String>)>)
    ensures
        template_data_view(r@) == measure_data(phrase@, lang),
{
    let mut r: Vec<(String, Option<String>)> = Vec::new();
    r.push((String::from_str("measure_result"), Some(phrase.get(&lang))));
    assert(template_data_view(r@) =~= measure_data(phrase@, lang));
    r
}

/// Renders a template that lists the ingredients.
pub fn render_ingredients(tpl: &SmartSpeakerI18nText, ings: &Vec<CookingIngredient>) -> (r: Option<SmartSpeakerI18nText>)
    ensures
        tts_view(r) == render_with(tpl@, |l: LanguageTag| ingredients_data(ings@, l)),
{
    let en = ingredients_data_exec(ings, LanguageTag::English);
    let ja = ingredients_data_exec(ings, LanguageTag::Japanese);
    let zh = ingredients_data_exec(ings, LanguageTag::Chinese);
    let ko = ingredients_data_exec(ings, LanguageTag::Korean);
    render_i18n(tpl, &en, &ja, &zh, &ko)
}

/// Renders a template that gives the seasonings' amounts.
pub fn render_amounts(tpl: &SmartSpeakerI18nText, ings: &Vec<CookingIngredient>) -> (r: Option<SmartSpeakerI18nText>)
    ensures
        tts_view(r) == render_with(tpl@, |l: LanguageTag| amounts_data(ings@, l)),
{
    let en = amounts_data_exec(ings, LanguageTag::English);
    let ja = amounts_data_exec(ings, LanguageTag::Japanese);
    let zh = amounts_data_exec(ings, LanguageTag::Chinese);
    let ko = amounts_data_exec(ings, LanguageTag::Korean);
    render_i18n(tpl, &en, &ja, &zh, &ko)
}

/// Renders a template that gives a cooking time.
pub fn render_time(tpl: &SmartSpeakerI18nText, time: &CookingIngredientTime) -> (r: Option<SmartSpeakerI18nText>)
    ensures
        tts_view(r) == render_with(tpl@, |l: LanguageTag| time_data(time.time, l)),
{
    let en = time_data_exec(time, LanguageTag::English);
    let ja = time_data_exec(time, LanguageTag::Japanese);
    let zh = time_data_exec(time, LanguageTag::Chinese);
    let ko = time_data_exec(time, LanguageTag::Korean);
    render_i18n(tpl, &en, &ja, &zh, &ko)
}

/// Renders a template that says how a measurement came out.
pub fn render_measure(tpl: &SmartSpeakerI18nText, phrase: &SmartSpeakerI18nText) -> (r: Option<SmartSpeakerI18nText>)
    ensures
        tts_view(r) == render_with(tpl@, |l: LanguageTag| measure_data(phrase@, l)),
{
    let en = measure_data_exec(phrase, LanguageTag::English);
    let ja = measure_data_exec(phrase, LanguageTag::Japanese);
    let zh = measure_data_exec(phrase, LanguageTag::Chinese);
    let ko = measure_data_exec(phrase, LanguageTag::Korean);
    render_i18n(tpl, &en, &ja, &zh, &ko)
}

/// An ingredient that is on a list is found by its name.
proof fn lemma_listed_ingredient_is_found(ings: Seq<CookingIngredient>, k: int)
    requires
        0 <= k < ings.len(),
    ensures
        first_with_name(ings, ings[k].name) is Some,
        first_with_name(ings, ings[k].name)->0.name == ings[k].name,
    decreases ings.len(),
{
    if ings[0].name != ings[k].name {
        assert(ings.drop_first()[k - 1] == ings[k]);
        lemma_listed_ingredient_is_found(ings.drop_first(), k - 1);
    }
}

/// The seasonings' template names differ from one another.
proof fn lemma_seasoning_codes_differ(n: CookingIngredientName, m: CookingIngredientName)
    requires
        n != m,
        n == CookingIngredientName::Salt || n == CookingIngredientName::Pepper || n == CookingIngredientName::Sugar
            || n == CookingIngredientName::SoySauce || n == CookingIngredientName::Sesame || n == CookingIngredientName::SesameOil
            || n == CookingIngredientName::Carrot || n == CookingIngredientName::Mayonnaise,
        m == CookingIngredientName::Salt || m == CookingIngredientName::Pepper || m == CookingIngredientName::Sugar
            || m == CookingIngredientName::SoySauce || m == CookingIngredientName::Sesame || m == CookingIngredientName::SesameOil
            || m == CookingIngredientName::Carrot || m == CookingIngredientName::Mayonnaise,
    ensures
        ingredient_template_code(n) != ingredient_template_code(m),
{
    reveal_strlit("salt");
    reveal_strlit("pepper");
    reveal_strlit("sugar");
    reveal_strlit("soy_sauce");
    reveal_strlit("sesame");
    reveal_strlit("sesame_oil");
    reveal_strlit("carrot");
    reveal_strlit("mayonnaise");
    let a = ingredient_template_code(n);
    let b = ingredient_template_code(m);
    if a.len() == b.len() {
        assert(a[0] != b[0]);
    }
}

/// Every seasoning of a step has its amount filled in: for each ingredient of the
/// list that is salt, pepper, sugar, soy sauce, sesame, sesame oil, carrot or
/// mayonnaise, the values for the template have an entry under that ingredient's
/// template name, and every entry under that name holds how much of it the list
/// gives (its first entry of that name), as that amount is said in the language.
pub proof fn lemma_every_seasoning_amount_is_filled(ings: Seq<CookingIngredient>, lang: LanguageTag, k: int)
    requires
        0 <= k < ings.len(),
        ({
            let n = ings[k].name;
            n == CookingIngredientName::Salt || n == CookingIngredientName::Pepper || n == CookingIngredientName::Sugar
                || n == CookingIngredientName::SoySauce || n == CookingIngredientName::Sesame || n == CookingIngredientName::SesameOil
                || n == CookingIngredientName::Carrot || n == CookingIngredientName::Mayonnaise
        }),
    ensures
        ({
            let d = amounts_data(ings, lang);
            let code = ingredient_template_code(ings[k].name);
            let found = first_with_name(ings, ings[k].name);
            &&& found is Some
            &&& found->0.name == ings[k].name
            &&& exists|j: int| 0 <= j < d.len() && (#[trigger] d[j]).0 == code
            &&& forall|j: int| 0 <= j < d.len() && (#[trigger] d[j]).0 == code
                ==> d[j].1 == Some(text_in(amount_text(approx_unit_of(found->0)), lang))
        }),
{
    lemma_listed_ingredient_is_found(ings, k);
    let n = ings[k].name;
    let d = amounts_data(ings, lang);
    let names = seq![
        CookingIngredientName::Salt, CookingIngredientName::Pepper, CookingIngredientName::Sugar,
        CookingIngredientName::SoySauce, CookingIngredientName::Sesame, CookingIngredientName::SesameOil,
        CookingIngredientName::Carrot, CookingIngredientName::Mayonnaise,
    ];
    assert forall|j: int| 0 <= j < d.len() implies d[j] == amount_entry(ings, #[trigger] names[j], lang) by {}
    let w: int = choose|j: int| 0 <= j < 8 && names[j] == n;
    assert(d[w].0 == ingredient_template_code(n));
    assert forall|j: int| 0 <= j < d.len() && (#[trigger] d[j]).0 == ingredient_template_code(n)
        implies d[j].1 == Some(text_in(amount_text(approx_unit_of(first_with_name(ings, n)->0)), lang)) by {
        assert(d[j] == amount_entry(ings, names[j], lang));
        if names[j] != n {
            lemma_seasoning_codes_differ(names[j], n);
        }
    }
}

} // verus!
