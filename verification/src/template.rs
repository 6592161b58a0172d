//! The project templates and the rendering of their texts.
//!
//! A template text holds three markers, each replaced by the project's
//! name in one spelling: `{{project_name}}` in Pascal case,
//! `{{project_name_snake}}` in snake case and `{{project_name_kebab}}`
//! in kebab case.

use crate::error::{result_view, Error, ErrorView};
use crate::text::{
    chars_of, push_all, replace, replace_all, replace_char, same_text, slice_of, string_of,
    swap_char,
};
use vstd::prelude::*;

verus! {

/// The files of one kind of project.
#[derive(Debug, PartialEq, Eq)]
pub struct Template {
    pub name: String,
    pub description: String,
    pub cargo_toml: String,
    pub lib_rs: String,
    pub readme: String,
}

/// The mathematical value of a `Template`.
pub struct TemplateView {
    pub name: Seq<char>,
    pub description: Seq<char>,
    pub cargo_toml: Seq<char>,
    pub lib_rs: Seq<char>,
    pub readme: Seq<char>,
}

impl View for Template {
    type V = TemplateView;

    open spec fn view(&self) -> TemplateView {
        TemplateView {
            name: self.name@,
            description: self.description@,
            cargo_toml: self.cargo_toml@,
            lib_rs: self.lib_rs@,
            readme: self.readme@,
        }
    }
}

/// The manifest shared by the templates that bring a contract.
pub const CONTRACT_CARGO_TOML: &'static str = "[package]
name = \"{{project_name_kebab}}\"
version = \"0.1.0\"
edition = \"2021\"

[lib]
crate-type = [\"cdylib\", \"lib\"]

[dependencies]
tako-macros = { git = \"https://github.com/tos-network/tako\" }
tako-storage = { git = \"https://github.com/tos-network/tako\" }

[profile.release]
opt-level = \"z\"
lto = true
";

/// The manifest of the template without a contract.
pub const EMPTY_CARGO_TOML: &'static str = "[package]
name = \"{{project_name_kebab}}\"
version = \"0.1.0\"
edition = \"2021\"

[lib]
crate-type = [\"cdylib\", \"lib\"]

[dependencies]

[profile.release]
opt-level = \"z\"
lto = true
";

/// The source of the counter contract.
pub const DEFAULT_LIB_RS: &'static str = "//! {{project_name}}: a counter contract.

/// The state of the contract.
pub struct {{project_name}} {
    pub count: u64,
}

impl {{project_name}} {
    pub fn new() -> Self {
        Self { count: 0 }
    }

    pub fn increment(&mut self) -> u64 {
        self.count = self.count.saturating_add(1);
        self.count
    }
}

#[cfg(test)]
mod tests {
    use super::*;

    #[test]
    fn test_{{project_name_snake}}_increment() {
        let mut contract = {{project_name}}::new();
        assert_eq!(contract.increment(), 1);
    }
}
";

/// The source of the fungible token.
pub const ERC20_LIB_RS: &'static str = "//! {{project_name}}: a fungible token.

/// The state of the token: one balance per account.
pub struct {{project_name}} {
    pub total_supply: u64,
    pub balances: Vec<([u8; 32], u64)>,
}

impl {{project_name}} {
    pub fn new(owner: [u8; 32], supply: u64) -> Self {
        Self { total_supply: supply, balances: vec![(owner, supply)] }
    }

    pub fn balance_of(&self, account: &[u8; 32]) -> u64 {
        self.balances.iter().find(|(a, _)| a == account).map(|(_, b)| *b).unwrap_or(0)
    }
}

#[cfg(test)]
mod tests {
    use super::*;

    #[test]
    fn test_{{project_name_snake}}_supply() {
        let token = {{project_name}}::new([1; 32], 1000);
        assert_eq!(token.balance_of(&[1; 32]), 1000);
    }
}
";

/// The source of the non-fungible token.
pub const ERC721_LIB_RS: &'static str = "//! {{project_name}}: a non-fungible token.

/// The state of the collection: one owner per token.
pub struct {{project_name}} {
    pub owners: Vec<(u64, [u8; 32])>,
}

impl {{project_name}} {
    pub fn new() -> Self {
        Self { owners: Vec::new() }
    }

    pub fn mint(&mut self, token: u64, owner: [u8; 32]) -> bool {
        if self.owner_of(token).is_some() {
            return false;
        }
        self.owners.push((token, owner));
        true
    }

    pub fn owner_of(&self, token: u64) -> Option<[u8; 32]> {
        self.owners.iter().find(|(t, _)| *t == token).map(|(_, o)| *o)
    }
}

#[cfg(test)]
mod tests {
    use super::*;

    #[test]
    fn test_{{project_name_snake}}_mint() {
        let mut collection = {{project_name}}::new();
        assert!(collection.mint(1, [1; 32]));
        assert!(!collection.mint(1, [2; 32]));
    }
}
";

/// The source of the template without a contract.
pub const EMPTY_LIB_RS: &'static str = "//! {{project_name}}
";

/// The readme shared by all templates.
pub const README: &'static str = "# {{project_name}}

A TAKO smart contract.

## Build

    cargo tako build --release

## Test

    cargo tako test
";

/// The template of a name, if the name is that of a template.
pub open spec fn template_of(name: Seq<char>) -> Option<TemplateView> {
    if name == "default"@ {
        Some(
            TemplateView {
                name: "default"@,
                description: "Basic counter contract"@,
                cargo_toml: CONTRACT_CARGO_TOML@,
                lib_rs: DEFAULT_LIB_RS@,
                readme: README@,
            },
        )
    } else if name == "erc20"@ {
        Some(
            TemplateView {
                name: "erc20"@,
                description: "ERC-20 fungible token"@,
                cargo_toml: CONTRACT_CARGO_TOML@,
                lib_rs: ERC20_LIB_RS@,
                readme: README@,
            },
        )
    } else if name == "erc721"@ {
        Some(
            TemplateView {
                name: "erc721"@,
                description: "ERC-721 non-fungible token (NFT)"@,
                cargo_toml: CONTRACT_CARGO_TOML@,
                lib_rs: ERC721_LIB_RS@,
                readme: README@,
            },
        )
    } else if name == "empty"@ {
        Some(
            TemplateView {
                name: "empty"@,
                description: "Minimal boilerplate"@,
                cargo_toml: EMPTY_CARGO_TOML@,
                lib_rs: EMPTY_LIB_RS@,
                readme: README@,
            },
        )
    } else {
        None
    }
}

/// What asking for a template by name gives.
pub open spec fn template_result(name: Seq<char>) -> Result<TemplateView, ErrorView> {
    match template_of(name) {
        Some(t) => Ok(t),
        None => Err(ErrorView::InvalidTemplate(name)),
    }
}

fn default_template() -> (t: Template)
    ensures
        Some(t@) == template_of("default"@),
{
    Template {
        name: String::from_str("default"),
        description: String::from_str("Basic counter contract"),
        cargo_toml: String::from_str(CONTRACT_CARGO_TOML),
        lib_rs: String::from_str(DEFAULT_LIB_RS),
        readme: String::from_str(README),
    }
}

fn erc20_template() -> (t: Template)
    ensures
        t@.name == "erc20"@,
        t@.description == "ERC-20 fungible token"@,
        t@.cargo_toml == CONTRACT_CARGO_TOML@,
        t@.lib_rs == ERC20_LIB_RS@,
        t@.readme == README@,
{
    Template {
        name: String::from_str("erc20"),
        description: String::from_str("ERC-20 fungible token"),
        cargo_toml: String::from_str(CONTRACT_CARGO_TOML),
        lib_rs: String::from_str(ERC20_LIB_RS),
        readme: String::from_str(README),
    }
}

fn erc721_template() -> (t: Template)
    ensures
        t@.name == "erc721"@,
        t@.description == "ERC-721 non-fungible token (NFT)"@,
        t@.cargo_toml == CONTRACT_CARGO_TOML@,
        t@.lib_rs == ERC721_LIB_RS@,
        t@.readme == README@,
{
    Template {
        name: String::from_str("erc721"),
        description: String::from_str("ERC-721 non-fungible token (NFT)"),
        cargo_toml: String::from_str(CONTRACT_CARGO_TOML),
        lib_rs: String::from_str(ERC721_LIB_RS),
        readme: String::from_str(README),
    }
}

fn empty_template() -> (t: Template)
    ensures
        t@.name == "empty"@,
        t@.description == "Minimal boilerplate"@,
        t@.cargo_toml == EMPTY_CARGO_TOML@,
        t@.lib_rs == EMPTY_LIB_RS@,
        t@.readme == README@,
{
    Template {
        name: String::from_str("empty"),
        description: String::from_str("Minimal boilerplate"),
        cargo_toml: String::from_str(EMPTY_CARGO_TOML),
        lib_rs: String::from_str(EMPTY_LIB_RS),
        readme: String::from_str(README),
    }
}

/// The template of the given name; any name but `default`, `erc20`,
/// `erc721` and `empty` is refused.
pub fn get_template(name: &str) -> (r: Result<Template, Error>)
    ensures
        result_view(r) == template_result(name@),
{
    if same_text(name, "default") {
        Ok(default_template())
    } else if same_text(name, "erc20") {
        Ok(erc20_template())
    } else if same_text(name, "erc721") {
        Ok(erc721_template())
    } else if same_text(name, "empty") {
        Ok(empty_template())
    } else {
        Err(Error::InvalidTemplate(String::from_str(name)))
    }
}

/// The names of the templates.
pub open spec fn template_names() -> Seq<Seq<char>> {
    seq!["default"@, "erc20"@, "erc721"@, "empty"@]
}

/// The names of the templates.
pub fn list_templates() -> (r: Vec<&'static str>)
    ensures
        r.deep_view() == template_names(),
{
    let mut r: Vec<&'static str> = Vec::new();
    r.push("default");
    r.push("erc20");
    r.push("erc721");
    r.push("empty");
    proof {
        assert(r.deep_view() == template_names());
    }
    r
}

/// A name has a template exactly when it is listed.
pub proof fn lemma_listed_templates(name: Seq<char>)
    ensures
        template_of(name) is Some <==> template_names().contains(name),
{
    let names = template_names();
    assert(names[0] == "default"@);
    assert(names[1] == "erc20"@);
    assert(names[2] == "erc721"@);
    assert(names[3] == "empty"@);
}

/// What `char::to_uppercase` of the standard library yields for `c`: the
/// upper-case mapping of the character by the Unicode tables, which can
/// be longer than one character.
pub uninterp spec fn uppercase_of(c: char) -> Seq<char>;

/// What `str::to_lowercase` of the standard library yields for `s`: the
/// lower-case form of the text by the Unicode tables.
pub uninterp spec fn lowercase_of(s: Seq<char>) -> Seq<char>;

/// `char::to_uppercase` of the standard library, collected into a string.
/// Trusted: the result is what that function yields for `c`; nothing is
/// claimed about which characters those are.
#[verifier::external_body]
fn upper(c: char) -> (r: String)
    ensures
        r@ == uppercase_of(c),
{
    c.to_uppercase().collect()
}

/// `str::to_lowercase` of the standard library. Trusted: the result is
/// what that function yields for `s`; nothing is claimed about which
/// characters those are.
#[verifier::external_body]
fn lower(s: &str) -> (r: String)
    ensures
        r@ == lowercase_of(s@),
{
    s.to_lowercase()
}

/// `-` and `_` stand between the words of a name.
pub open spec fn is_separator(c: char) -> bool {
    c == '-' || c == '_'
}

/// The length of the first word of `s`: the index of its first separator,
/// or the length of `s` where it holds none.
pub open spec fn word_len(s: Seq<char>) -> nat
    decreases s.len(),
{
    if s.len() == 0 || is_separator(s[0]) {
        0
    } else {
        1 + word_len(s.drop_first())
    }
}

/// A word with `capital` in place of its first character; an empty word
/// stays empty.
pub open spec fn with_capital(word: Seq<char>, capital: Seq<char>) -> Seq<char> {
    if word.len() == 0 {
        word
    } else {
        capital + word.drop_first()
    }
}

/// A word with its first character in upper case.
pub open spec fn capitalized(word: Seq<char>) -> Seq<char> {
    if word.len() == 0 {
        word
    } else {
        with_capital(word, uppercase_of(word[0]))
    }
}

/// A name in Pascal case: its words, each with its first character in
/// upper case, without the separators between them.
pub open spec fn pascal_case(s: Seq<char>) -> Seq<char>
    decreases s.len(),
{
    let k = word_len(s) as int;
    if k >= s.len() {
        capitalized(s)
    } else {
        capitalized(s.take(k)) + pascal_case(s.skip(k + 1))
    }
}

/// A name in snake case: `_` for every `-`, in lower case.
pub open spec fn snake_case(s: Seq<char>) -> Seq<char> {
    lowercase_of(swap_char(s, '-', '_'))
}

/// A name in kebab case: `-` for every `_`, in lower case.
pub open spec fn kebab_case(s: Seq<char>) -> Seq<char> {
    lowercase_of(swap_char(s, '_', '-'))
}

/// The first word of a sequence ends within it, at a separator unless at
/// its end, and holds no separator.
pub proof fn lemma_word_len(s: Seq<char>)
    ensures
        word_len(s) <= s.len(),
        word_len(s) < s.len() ==> is_separator(s[word_len(s) as int]),
        forall|j: int| 0 <= j < word_len(s) ==> !is_separator(s[j]),
    decreases s.len(),
{
    if s.len() == 0 || is_separator(s[0]) {
    } else {
        lemma_word_len(s.drop_first());
        assert forall|j: int| 0 <= j < word_len(s) implies !is_separator(s[j]) by {
            if j > 0 {
                assert(s[j] == s.drop_first()[j - 1]);
            }
        }
    }
}

/// An index is `word_len(s)` once no separator stands before it and it
/// either ends the sequence or holds one.
pub proof fn lemma_word_len_is(s: Seq<char>, i: int)
    requires
        0 <= i <= s.len(),
        forall|j: int| 0 <= j < i ==> !is_separator(s[j]),
        i < s.len() ==> is_separator(s[i]),
    ensures
        word_len(s) == i,
{
    lemma_word_len(s);
    let p = word_len(s) as int;
    if p < i {
        assert(is_separator(s[p]));
    } else if p > i {
        assert(is_separator(s[i]));
    }
}

/// A word with `capital` in place of its first character.
pub fn capitalize_with(word: &[char], capital: &[char]) -> (r: Vec<char>)
    ensures
        r@ == with_capital(word@, capital@),
{
    let mut r: Vec<char> = Vec::new();
    if word.len() > 0 {
        push_all(&mut r, capital);
        let rest = slice_of(word, 1, word.len());
        push_all(&mut r, rest.as_slice());
    }
    proof {
        if word.len() == 0 {
            assert(r@ == word@);
        }
    }
    r
}

fn capitalize(word: &[char]) -> (r: Vec<char>)
    ensures
        r@ == capitalized(word@),
{
    if word.len() == 0 {
        capitalize_with(word, word)
    } else {
        let capital = upper(word[0]);
        let letters = chars_of(capital.as_str());
        capitalize_with(word, letters.as_slice())
    }
}

/// A name in Pascal case.
pub fn to_pascal_case(s: &str) -> (r: String)
    ensures
        r@ == pascal_case(s@),
{
    let text = chars_of(s);
    let mut out: Vec<char> = Vec::new();
    let mut start: usize = 0;
    proof {
        assert(text@.skip(0) == text@);
        assert(out@ + pascal_case(text@) == pascal_case(text@));
    }
    loop
        invariant
            start <= text.len(),
            text@ == s@,
            out@ + pascal_case(text@.skip(start as int)) == pascal_case(s@),
        decreases text.len() - start,
    {
        let ghost rest = text@.skip(start as int);
        let ghost before = out@;
        let mut end: usize = start;
        while end < text.len() && text[end] != '-' && text[end] != '_'
            invariant
                start <= end <= text.len(),
                forall|j: int| start <= j < end ==> !is_separator(text@[j]),
            decreases text.len() - end,
        {
            end = end + 1;
        }
        proof {
            lemma_word_len_is(rest, end - start);
        }
        let word = slice_of(text.as_slice(), start, end);
        let shown = capitalize(word.as_slice());
        push_all(&mut out, shown.as_slice());
        proof {
            assert(word@ == rest.take(end - start));
        }
        if end == text.len() {
            proof {
                assert(rest.take(rest.len() as int) == rest);
            }
            return string_of(out.as_slice());
        }
        proof {
            assert(rest.skip(end - start + 1) == text@.skip(end + 1));
            assert(before + (capitalized(word@) + pascal_case(text@.skip(end + 1))) == (before
                + capitalized(word@)) + pascal_case(text@.skip(end + 1)));
        }
        start = end + 1;
    }
}

/// A name in snake case.
pub fn to_snake_case(s: &str) -> (r: String)
    ensures
        r@ == snake_case(s@),
{
    let text = chars_of(s);
    let swapped = string_of(replace_char(text.as_slice(), '-', '_').as_slice());
    lower(swapped.as_str())
}

/// A name in kebab case.
pub fn to_kebab_case(s: &str) -> (r: String)
    ensures
        r@ == kebab_case(s@),
{
    let text = chars_of(s);
    let swapped = string_of(replace_char(text.as_slice(), '_', '-').as_slice());
    lower(swapped.as_str())
}

/// A template text with its markers replaced by the three spellings of
/// a name: first `{{project_name}}`, in what that leaves
/// `{{project_name_snake}}`, and in what that leaves
/// `{{project_name_kebab}}`.
pub open spec fn rendered(
    content: Seq<char>,
    pascal: Seq<char>,
    snake: Seq<char>,
    kebab: Seq<char>,
) -> Seq<char> {
    replace_all(
        replace_all(
            replace_all(content, "{{project_name}}"@, pascal),
            "{{project_name_snake}}"@,
            snake,
        ),
        "{{project_name_kebab}}"@,
        kebab,
    )
}

/// A template text with its markers replaced by the given spellings of
/// the project's name.
pub fn render(content: &str, pascal: &str, snake: &str, kebab: &str) -> (r: String)
    ensures
        r@ == rendered(content@, pascal@, snake@, kebab@),
{
    let text = chars_of(content);
    let first = replace(
        text.as_slice(),
        chars_of("{{project_name}}").as_slice(),
        chars_of(pascal).as_slice(),
    );
    let second = replace(
        first.as_slice(),
        chars_of("{{project_name_snake}}").as_slice(),
        chars_of(snake).as_slice(),
    );
    let third = replace(
        second.as_slice(),
        chars_of("{{project_name_kebab}}").as_slice(),
        chars_of(kebab).as_slice(),
    );
    string_of(third.as_slice())
}

/// A template text rendered for a project of the given name.
pub open spec fn processed(content: Seq<char>, project_name: Seq<char>) -> Seq<char> {
    rendered(
        content,
        pascal_case(project_name),
        snake_case(project_name),
        kebab_case(project_name),
    )
}

/// A template text rendered for a project of the given name.
pub fn process_template(content: &str, project_name: &str) -> (r: String)
    ensures
        r@ == processed(content@, project_name@),
{
    let pascal = to_pascal_case(project_name);
    let snake = to_snake_case(project_name);
    let kebab = to_kebab_case(project_name);
    render(content, pascal.as_str(), snake.as_str(), kebab.as_str())
}

} // verus!
