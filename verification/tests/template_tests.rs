use cargo_tako::error::Error;
use cargo_tako::template::{
    capitalize_with, get_template, list_templates, process_template, render, to_kebab_case,
    to_pascal_case, to_snake_case,
};

fn pascal_by_std(s: &str) -> String {
    s.split(&['-', '_'][..])
        .map(|word| {
            let mut chars = word.chars();
            match chars.next() {
                None => String::new(),
                Some(first) => first.to_uppercase().collect::<String>() + chars.as_str(),
            }
        })
        .collect()
}

#[test]
fn pascal_case_exact() {
    assert_eq!(to_pascal_case("my-contract"), "MyContract");
    assert_eq!(to_pascal_case("my_cool-thing"), "MyCoolThing");
    assert_eq!(to_pascal_case("abc"), "Abc");
    assert_eq!(to_pascal_case(""), "");
    assert_eq!(to_pascal_case("-"), "");
    assert_eq!(to_pascal_case("-a--b_"), "AB");
    assert_eq!(to_pascal_case("alreadyPascal"), "AlreadyPascal");
    assert_eq!(to_pascal_case("x1-2y"), "X12y");
    assert_eq!(to_pascal_case("ßeta-éclair"), "SSetaÉclair");
}

#[test]
fn pascal_case_agrees_with_split_and_collect() {
    for s in ["", "a", "-", "__", "a-b", "a_b-c", "--a", "a--", "ǆ-ﬁ", "Ab-cD", "日本-語"] {
        assert_eq!(to_pascal_case(s), pascal_by_std(s), "{s:?}");
    }
}

#[test]
fn capital_replaces_the_first_character() {
    let word: Vec<char> = "straße".chars().collect();
    let capital: Vec<char> = "S".chars().collect();
    let r: String = capitalize_with(&word, &capital).into_iter().collect();
    assert_eq!(r, "Straße");
    let two: Vec<char> = "SS".chars().collect();
    let r: String = capitalize_with(&['ß', 'x'], &two).into_iter().collect();
    assert_eq!(r, "SSx");
    assert!(capitalize_with(&[], &capital).is_empty());
}

#[test]
fn snake_and_kebab_case() {
    assert_eq!(to_snake_case("My-Cool_Thing"), "my_cool_thing");
    assert_eq!(to_kebab_case("My-Cool_Thing"), "my-cool-thing");
    assert_eq!(to_snake_case("ABC"), "abc");
    assert_eq!(to_kebab_case("ABC"), "abc");
    assert_eq!(to_snake_case(""), "");
    for s in ["", "A-b_C", "ÉCLAIR-Σ", "ΌΣΟΣ"] {
        assert_eq!(to_snake_case(s), s.replace('-', "_").to_lowercase());
        assert_eq!(to_kebab_case(s), s.replace('_', "-").to_lowercase());
    }
}

#[test]
fn render_replaces_each_marker() {
    let content = "{{project_name}}|{{project_name_snake}}|{{project_name_kebab}}|{{other}}";
    assert_eq!(render(content, "P", "s", "k"), "P|s|k|{{other}}");
    assert_eq!(render("", "P", "s", "k"), "");
    assert_eq!(render("no markers", "P", "s", "k"), "no markers");
}

#[test]
fn render_replaces_in_order() {
    // what the first replacement brings in is seen by the second
    assert_eq!(render("{{project_name}}", "{{project_name_snake}}", "s", "k"), "s");
    assert_eq!(render("{{project_name_snake}}", "P", "{{project_name_kebab}}", "k"), "k");
    assert_eq!(render("{{project_name_kebab}}", "P", "s", "{{project_name}}"), "{{project_name}}");
}

#[test]
fn process_template_spells_the_name() {
    let content = "struct {{project_name}}; // {{project_name_snake}} {{project_name_kebab}}";
    assert_eq!(
        process_template(content, "my-Token_x"),
        "struct MyTokenX; // my_token_x my-token-x"
    );
    let expected = content
        .replace("{{project_name}}", &pascal_by_std("my-Token_x"))
        .replace("{{project_name_snake}}", "my_token_x")
        .replace("{{project_name_kebab}}", "my-token-x");
    assert_eq!(process_template(content, "my-Token_x"), expected);
}

#[test]
fn templates_by_name() {
    let names = list_templates();
    assert_eq!(names, vec!["default", "erc20", "erc721", "empty"]);
    let descriptions = [
        "Basic counter contract",
        "ERC-20 fungible token",
        "ERC-721 non-fungible token (NFT)",
        "Minimal boilerplate",
    ];
    for (name, description) in names.iter().zip(descriptions) {
        let t = get_template(name).unwrap();
        assert_eq!(t.name, *name);
        assert_eq!(t.description, description);
        assert!(t.cargo_toml.contains("{{project_name_kebab}}"));
        assert!(t.lib_rs.contains("{{project_name}}"));
        assert!(t.readme.contains("{{project_name}}"));
    }
}

#[test]
fn unknown_template_is_refused() {
    for name in ["", "Default", "erc1155", "default ", "empty\n"] {
        assert_eq!(get_template(name), Err(Error::InvalidTemplate(name.to_string())));
    }
}

#[test]
fn rendered_manifest_declares_the_package() {
    let t = get_template("default").unwrap();
    let manifest = process_template(&t.cargo_toml, "My_Counter");
    assert!(manifest.contains("name = \"my-counter\""));
    assert_eq!(cargo_tako::util::get_package_name(&manifest), Some("my_counter".to_string()));
}
