//! Rustdoc item kinds: CLI aliases, page prefixes and `all.html` classification.

use vstd::prelude::*;

use crate::error::app_error::AppError;
use crate::error::detail::ErrorDetail;
use crate::text::{
    after_last_char, after_last_char_exec, before_char, before_char_exec, chars_of, contains,
    eq_str, lemma_after_last_char_absent, lemma_before_char_absent, lemma_before_char_split,
    lemma_lower_noop, lemma_trim_noop, lower_chars, lower_seq, replace_char, replace_char_exec,
    str_contains, string_of, trim, trim_chars,
};

verus! {

/// Canonical rustdoc item kinds used by docs.rs HTML.
#[derive(Debug, Clone, Copy, PartialEq, Eq, Hash, Structural)]
pub enum ItemKind {
    /// Module page.
    Module,
    /// Struct page.
    Struct,
    /// Trait page.
    Trait,
    /// Enum page.
    Enum,
    /// Union page.
    Union,
    /// Function or method page.
    Fn,
    /// Type alias page.
    Type,
    /// Constant page.
    Constant,
    /// Static page.
    Static,
    /// Macro page.
    Macro,
    /// Attribute macro page.
    Attribute,
    /// Derive macro page.
    Derive,
    /// Enum variant — always a member of its enum, never its own page.
    Variant,
    /// Struct or union field — always a member of its type, never its own page.
    StructField,
}

/// Stable JSON / filter token of a kind.
pub open spec fn kind_name(k: ItemKind) -> Seq<char> {
    match k {
        ItemKind::Module => "module"@,
        ItemKind::Struct => "struct"@,
        ItemKind::Trait => "trait"@,
        ItemKind::Enum => "enum"@,
        ItemKind::Union => "union"@,
        ItemKind::Fn => "fn"@,
        ItemKind::Type => "type"@,
        ItemKind::Constant => "constant"@,
        ItemKind::Static => "static"@,
        ItemKind::Macro => "macro"@,
        ItemKind::Attribute => "attribute"@,
        ItemKind::Derive => "derive"@,
        ItemKind::Variant => "variant"@,
        ItemKind::StructField => "structfield"@,
    }
}

/// Whether rustdoc emits a standalone page for the kind.
pub open spec fn kind_owns_page(k: ItemKind) -> bool {
    !(k == ItemKind::Variant || k == ItemKind::StructField)
}

/// File-name prefix of a kind's rustdoc page (`None` for member-only kinds).
pub open spec fn kind_prefix(k: ItemKind) -> Option<Seq<char>> {
    match k {
        ItemKind::Attribute => Some("attr"@),
        ItemKind::Variant => None,
        ItemKind::StructField => None,
        _ => Some(kind_name(k)),
    }
}

/// Kind and wire echo named by an already trimmed, lowercased CLI alias.
pub open spec fn kind_alias(t: Seq<char>) -> Option<(ItemKind, Seq<char>)> {
    if t == "module"@ || t == "mod"@ {
        Some((ItemKind::Module, "module"@))
    } else if t == "struct"@ {
        Some((ItemKind::Struct, "struct"@))
    } else if t == "trait"@ {
        Some((ItemKind::Trait, "trait"@))
    } else if t == "enum"@ {
        Some((ItemKind::Enum, "enum"@))
    } else if t == "union"@ {
        Some((ItemKind::Union, "union"@))
    } else if t == "fn"@ || t == "function"@ {
        Some((ItemKind::Fn, "fn"@))
    } else if t == "method"@ {
        Some((ItemKind::Fn, "method"@))
    } else if t == "type"@ {
        Some((ItemKind::Type, "type"@))
    } else if t == "const"@ || t == "constant"@ {
        Some((ItemKind::Constant, "constant"@))
    } else if t == "static"@ {
        Some((ItemKind::Static, "static"@))
    } else if t == "macro"@ {
        Some((ItemKind::Macro, "macro"@))
    } else if t == "attr"@ || t == "attribute"@ {
        Some((ItemKind::Attribute, "attribute"@))
    } else if t == "derive"@ {
        Some((ItemKind::Derive, "derive"@))
    } else if t == "variant"@ {
        Some((ItemKind::Variant, "variant"@))
    } else if t == "structfield"@ || t == "field"@ {
        Some((ItemKind::StructField, "structfield"@))
    } else {
        None
    }
}

/// Kind named by the file-name prefix of an `all.html` href.
pub open spec fn kind_of_page_prefix(p: Seq<char>) -> Option<ItemKind> {
    if p == "struct"@ {
        Some(ItemKind::Struct)
    } else if p == "trait"@ {
        Some(ItemKind::Trait)
    } else if p == "fn"@ {
        Some(ItemKind::Fn)
    } else if p == "enum"@ {
        Some(ItemKind::Enum)
    } else if p == "type"@ {
        Some(ItemKind::Type)
    } else if p == "constant"@ || p == "const"@ {
        Some(ItemKind::Constant)
    } else if p == "static"@ {
        Some(ItemKind::Static)
    } else if p == "macro"@ {
        Some(ItemKind::Macro)
    } else if p == "union"@ {
        Some(ItemKind::Union)
    } else if p == "attr"@ {
        Some(ItemKind::Attribute)
    } else if p == "derive"@ {
        Some(ItemKind::Derive)
    } else if p == "index"@ {
        Some(ItemKind::Module)
    } else {
        None
    }
}

/// File-name prefix of an href: the last `/` segment, cut at `#`, then at `.`.
pub open spec fn href_prefix(href: Seq<char>) -> Seq<char> {
    before_char(before_char(after_last_char(href, '/'), '#'), '.')
}

/// Kind of the page an `all.html` href points at; the fragment is consulted
/// only when the file name identifies nothing.
pub open spec fn href_kind(href: Seq<char>) -> Option<ItemKind> {
    match kind_of_page_prefix(href_prefix(href)) {
        Some(k) => Some(k),
        None => if contains(href, "#method."@) {
            Some(ItemKind::Fn)
        } else if contains(href, "#variant."@) {
            Some(ItemKind::Variant)
        } else if contains(href, "#structfield."@) {
            Some(ItemKind::StructField)
        } else {
            None
        },
    }
}

/// `pkg` with hyphens replaced by underscores (rustc crate/module spelling).
pub open spec fn rustc_name(pkg: Seq<char>) -> Seq<char> {
    replace_char(pkg, '-', '_')
}

/// `e` is the well-formed error that rejects the alias `t`.
pub open spec fn unknown_kind_error(e: AppError, t: Seq<char>) -> bool {
    &&& e.wf()
    &&& match e.detail_of() {
        ErrorDetail::UnknownItemType { value } => value@ == t,
        _ => false,
    }
}

impl ItemKind {
    /// Stable JSON / filter string.
    pub fn as_str(self) -> (r: &'static str)
        ensures
            r@ == kind_name(self),
    {
        match self {
            Self::Module => "module",
            Self::Struct => "struct",
            Self::Trait => "trait",
            Self::Enum => "enum",
            Self::Union => "union",
            Self::Fn => "fn",
            Self::Type => "type",
            Self::Constant => "constant",
            Self::Static => "static",
            Self::Macro => "macro",
            Self::Attribute => "attribute",
            Self::Derive => "derive",
            Self::Variant => "variant",
            Self::StructField => "structfield",
        }
    }

    /// Whether rustdoc emits a standalone `{prefix}.{name}.html` page for this kind.
    ///
    /// Variants and fields are rendered only as anchors inside the parent's page.
    pub fn owns_page(self) -> (r: bool)
        ensures
            r == kind_owns_page(self),
    {
        !matches!(self, Self::Variant | Self::StructField)
    }

    /// Filename prefix in rustdoc HTML (e.g. `struct`, `fn`, `attr`, `constant`);
    /// `None` for kinds that own no page.
    pub fn file_prefix(self) -> (r: Option<&'static str>)
        ensures
            match (r, kind_prefix(self)) {
                (Some(a), Some(b)) => a@ == b,
                (None, None) => true,
                _ => false,
            },
    {
        match self {
            Self::Module => Some("module"),
            Self::Struct => Some("struct"),
            Self::Trait => Some("trait"),
            Self::Enum => Some("enum"),
            Self::Union => Some("union"),
            Self::Fn => Some("fn"),
            Self::Type => Some("type"),
            Self::Constant => Some("constant"),
            Self::Static => Some("static"),
            Self::Macro => Some("macro"),
            Self::Attribute => Some("attr"),
            Self::Derive => Some("derive"),
            Self::Variant => None,
            Self::StructField => None,
        }
    }

    /// Parse CLI / filter aliases into the canonical kind.
    pub fn parse(input: &str) -> (r: Result<Self, AppError>)
        ensures
            ({
                let t = lower_seq(trim(input@));
                match kind_alias(t) {
                    Some((k, _)) => r matches Ok(x) && x == k,
                    None => r matches Err(e) && unknown_kind_error(e, t),
                }
            }),
    {
        match Self::parse_with_echo(input) {
            Ok((k, _)) => Ok(k),
            Err(e) => Err(e),
        }
    }

    /// Parse a kind for URL building plus the wire echo string for `item_type`
    /// (`method` maps to [`ItemKind::Fn`] but echoes as `"method"`).
    pub fn parse_with_echo(input: &str) -> (r: Result<(Self, &'static str), AppError>)
        ensures
            ({
                let t = lower_seq(trim(input@));
                match kind_alias(t) {
                    Some((k, echo)) => r matches Ok((x, y)) && x == k && y@ == echo,
                    None => r matches Err(e) && unknown_kind_error(e, t),
                }
            }),
    {
        let v = chars_of(input);
        let tr = trim_chars(v.as_slice());
        let lo = lower_chars(tr.as_slice());
        let t = lo.as_slice();
        if eq_str(t, "module") || eq_str(t, "mod") {
            Ok((Self::Module, "module"))
        } else if eq_str(t, "struct") {
            Ok((Self::Struct, "struct"))
        } else if eq_str(t, "trait") {
            Ok((Self::Trait, "trait"))
        } else if eq_str(t, "enum") {
            Ok((Self::Enum, "enum"))
        } else if eq_str(t, "union") {
            Ok((Self::Union, "union"))
        } else if eq_str(t, "fn") || eq_str(t, "function") {
            Ok((Self::Fn, "fn"))
        } else if eq_str(t, "method") {
            Ok((Self::Fn, "method"))
        } else if eq_str(t, "type") {
            Ok((Self::Type, "type"))
        } else if eq_str(t, "const") || eq_str(t, "constant") {
            Ok((Self::Constant, "constant"))
        } else if eq_str(t, "static") {
            Ok((Self::Static, "static"))
        } else if eq_str(t, "macro") {
            Ok((Self::Macro, "macro"))
        } else if eq_str(t, "attr") || eq_str(t, "attribute") {
            Ok((Self::Attribute, "attribute"))
        } else if eq_str(t, "derive") {
            Ok((Self::Derive, "derive"))
        } else if eq_str(t, "variant") {
            Ok((Self::Variant, "variant"))
        } else if eq_str(t, "structfield") || eq_str(t, "field") {
            Ok((Self::StructField, "structfield"))
        } else {
            Err(AppError::of(ErrorDetail::UnknownItemType { value: string_of(t) }))
        }
    }

    /// Infer the kind from an `all.html` href (e.g. `struct.Name.html`,
    /// `attr.foo.html`); accepts modern `constant.` and legacy `const.`.
    pub fn from_href(href: &str) -> (r: Option<Self>)
        ensures
            r == href_kind(href@),
    {
        let h = chars_of(href);
        let file = after_last_char_exec(h.as_slice(), '/');
        let file = before_char_exec(file.as_slice(), '#');
        let pv = before_char_exec(file.as_slice(), '.');
        let p = pv.as_slice();
        if eq_str(p, "struct") {
            Some(Self::Struct)
        } else if eq_str(p, "trait") {
            Some(Self::Trait)
        } else if eq_str(p, "fn") {
            Some(Self::Fn)
        } else if eq_str(p, "enum") {
            Some(Self::Enum)
        } else if eq_str(p, "type") {
            Some(Self::Type)
        } else if eq_str(p, "constant") || eq_str(p, "const") {
            Some(Self::Constant)
        } else if eq_str(p, "static") {
            Some(Self::Static)
        } else if eq_str(p, "macro") {
            Some(Self::Macro)
        } else if eq_str(p, "union") {
            Some(Self::Union)
        } else if eq_str(p, "attr") {
            Some(Self::Attribute)
        } else if eq_str(p, "derive") {
            Some(Self::Derive)
        } else if eq_str(p, "index") {
            Some(Self::Module)
        } else if str_contains(h.as_slice(), "#method.") {
            Some(Self::Fn)
        } else if str_contains(h.as_slice(), "#variant.") {
            Some(Self::Variant)
        } else if str_contains(h.as_slice(), "#structfield.") {
            Some(Self::StructField)
        } else {
            None
        }
    }
}

/// Replace hyphens with underscores for rustc crate/module path segments.
pub fn rustc_crate_name(pkg: &str) -> (r: String)
    ensures
        r@ == rustc_name(pkg@),
{
    let v = chars_of(pkg);
    let w = replace_char_exec(v.as_slice(), '-', '_');
    string_of(w.as_slice())
}

/// Length and leading scalars of every kind token and alias, enough to tell
/// any two of them apart.
proof fn lemma_kind_literals()
    ensures
        "module"@.len() == 6,
        "module"@[0] == 'm',
        "module"@[1] == 'o',
        "module"@[2] == 'd',
        "mod"@.len() == 3,
        "mod"@[0] == 'm',
        "mod"@[1] == 'o',
        "mod"@[2] == 'd',
        "struct"@.len() == 6,
        "struct"@[0] == 's',
        "struct"@[1] == 't',
        "struct"@[2] == 'r',
        "trait"@.len() == 5,
        "trait"@[0] == 't',
        "trait"@[1] == 'r',
        "trait"@[2] == 'a',
        "enum"@.len() == 4,
        "enum"@[0] == 'e',
        "enum"@[1] == 'n',
        "enum"@[2] == 'u',
        "union"@.len() == 5,
        "union"@[0] == 'u',
        "union"@[1] == 'n',
        "union"@[2] == 'i',
        "fn"@.len() == 2,
        "fn"@[0] == 'f',
        "fn"@[1] == 'n',
        "function"@.len() == 8,
        "function"@[0] == 'f',
        "function"@[1] == 'u',
        "function"@[2] == 'n',
        "method"@.len() == 6,
        "method"@[0] == 'm',
        "method"@[1] == 'e',
        "method"@[2] == 't',
        "type"@.len() == 4,
        "type"@[0] == 't',
        "type"@[1] == 'y',
        "type"@[2] == 'p',
        "const"@.len() == 5,
        "const"@[0] == 'c',
        "const"@[1] == 'o',
        "const"@[2] == 'n',
        "constant"@.len() == 8,
        "constant"@[0] == 'c',
        "constant"@[1] == 'o',
        "constant"@[2] == 'n',
        "static"@.len() == 6,
        "static"@[0] == 's',
        "static"@[1] == 't',
        "static"@[2] == 'a',
        "macro"@.len() == 5,
        "macro"@[0] == 'm',
        "macro"@[1] == 'a',
        "macro"@[2] == 'c',
        "attr"@.len() == 4,
        "attr"@[0] == 'a',
        "attr"@[1] == 't',
        "attr"@[2] == 't',
        "attribute"@.len() == 9,
        "attribute"@[0] == 'a',
        "attribute"@[1] == 't',
        "attribute"@[2] == 't',
        "derive"@.len() == 6,
        "derive"@[0] == 'd',
        "derive"@[1] == 'e',
        "derive"@[2] == 'r',
        "variant"@.len() == 7,
        "variant"@[0] == 'v',
        "variant"@[1] == 'a',
        "variant"@[2] == 'r',
        "structfield"@.len() == 11,
        "structfield"@[0] == 's',
        "structfield"@[1] == 't',
        "structfield"@[2] == 'r',
        "field"@.len() == 5,
        "field"@[0] == 'f',
        "field"@[1] == 'i',
        "field"@[2] == 'e',
        "index"@.len() == 5,
        "index"@[0] == 'i',
        "index"@[1] == 'n',
        "index"@[2] == 'd',
{
    reveal_strlit("module");
    reveal_strlit("mod");
    reveal_strlit("struct");
    reveal_strlit("trait");
    reveal_strlit("enum");
    reveal_strlit("union");
    reveal_strlit("fn");
    reveal_strlit("function");
    reveal_strlit("method");
    reveal_strlit("type");
    reveal_strlit("const");
    reveal_strlit("constant");
    reveal_strlit("static");
    reveal_strlit("macro");
    reveal_strlit("attr");
    reveal_strlit("attribute");
    reveal_strlit("derive");
    reveal_strlit("variant");
    reveal_strlit("structfield");
    reveal_strlit("field");
    reveal_strlit("index");
}

/// Every kind's canonical token parses back to that kind and echoes itself.
pub proof fn lemma_kind_name_round_trip(k: ItemKind)
    ensures
        kind_alias(lower_seq(trim(kind_name(k)))) == Some((k, kind_name(k))),
{
    lemma_kind_literals();
    reveal_strlit("module");
    reveal_strlit("struct");
    reveal_strlit("trait");
    reveal_strlit("enum");
    reveal_strlit("union");
    reveal_strlit("fn");
    reveal_strlit("type");
    reveal_strlit("constant");
    reveal_strlit("static");
    reveal_strlit("macro");
    reveal_strlit("attribute");
    reveal_strlit("derive");
    reveal_strlit("variant");
    reveal_strlit("structfield");
    let s = kind_name(k);
    lemma_trim_noop(s);
    lemma_lower_noop(s);
}

/// The wire echo of any accepted alias is itself an alias of the same kind,
/// echoing unchanged.
pub proof fn lemma_kind_echo_stable(t: Seq<char>)
    requires
        kind_alias(t) is Some,
    ensures
        kind_alias(kind_alias(t).unwrap().1) == kind_alias(t),
{
    lemma_kind_literals();
    let e = kind_alias(t).unwrap().1;
    if t == "module"@ || t == "mod"@ {
        assert(e == "module"@);
    } else if t == "fn"@ || t == "function"@ {
        assert(e == "fn"@);
    } else if t == "const"@ || t == "constant"@ {
        assert(kind_alias(t) == Some((ItemKind::Constant, "constant"@)));
        assert(kind_alias("constant"@) == Some((ItemKind::Constant, "constant"@)));
    } else if t == "attr"@ || t == "attribute"@ {
        assert(kind_alias(t) == Some((ItemKind::Attribute, "attribute"@)));
        assert(kind_alias("attribute"@) == Some((ItemKind::Attribute, "attribute"@)));
    } else if t == "structfield"@ || t == "field"@ {
        assert(e == "structfield"@);
    } else {
        assert(e == t);
    }
}

/// The page href built from a kind's file prefix and an item name classifies
/// back to that kind (module pages are `index.html`, so modules are excluded).
pub proof fn lemma_page_href_kind(k: ItemKind, name: Seq<char>)
    requires
        kind_owns_page(k),
        k != ItemKind::Module,
        !name.contains('/'),
        !name.contains('#'),
    ensures
        href_kind(kind_prefix(k).unwrap() + "."@ + name + ".html"@) == Some(k),
{
    lemma_kind_literals();
    reveal_strlit("struct");
    reveal_strlit("trait");
    reveal_strlit("enum");
    reveal_strlit("union");
    reveal_strlit("fn");
    reveal_strlit("type");
    reveal_strlit("constant");
    reveal_strlit("static");
    reveal_strlit("macro");
    reveal_strlit("attr");
    reveal_strlit("derive");
    reveal_strlit(".");
    reveal_strlit(".html");
    reveal_strlit(".");
    reveal_strlit(".html");
    let p = kind_prefix(k).unwrap();
    let tail = name + ".html"@;
    let href = p + "."@ + name + ".html"@;
    assert(href =~= p + seq!['.'] + tail);
    assert forall|i: int| 0 <= i < href.len() implies href[i] != '/' && href[i] != '#' by {
        if i < p.len() {
        } else if i == p.len() {
        } else if i < p.len() + 1 + name.len() {
            assert(href[i] == name[i - p.len() - 1]);
        } else {
            assert(href[i] == ".html"@[i - p.len() - 1 - name.len()]);
        }
    }
    assert(!href.contains('/'));
    assert(!href.contains('#'));
    lemma_after_last_char_absent(href, '/');
    lemma_before_char_absent(href, '#');
    assert(!p.contains('.'));
    lemma_before_char_split(p, '.', tail);
    assert(href_prefix(href) == p);
    if k == ItemKind::Constant {
        assert(p == "constant"@);
        assert(kind_of_page_prefix("constant"@) == Some(ItemKind::Constant));
    }
    if k == ItemKind::Attribute {
        assert(p == "attr"@);
        assert(kind_of_page_prefix("attr"@) == Some(ItemKind::Attribute));
    }
    assert(kind_of_page_prefix(p) == Some(k));
}

} // verus!
