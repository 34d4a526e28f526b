//! Human-facing messages for stderr prose (`en` / `pt-BR`).
//!
//! Stdout (JSON envelopes) is always English; stderr prose follows the resolved
//! [`Locale`]. Explicit tags are fail-closed: only `en`, `en-*` and exact
//! `pt-BR` (after normalization) are accepted. Soft detection maps any `pt`
//! primary language to Brazilian Portuguese.

use vstd::prelude::*;

use crate::error::app_error::AppError;
use crate::error::detail::ErrorDetail;
use crate::error::render_en::en_text;
use crate::error::render_pt_br::pt_br_text;
use crate::text::{
    chars_of, contains, eq_str, is_ws, lemma_lower_noop, lemma_replace_single_absent,
    lemma_trim_noop, lower_chars, lower_seq, push_str, replace_all,
    replace_all_exec, starts_with, str_contains, str_starts_with, string_of, trim, trim_chars,
};

verus! {

/// Resolved UI locale for stderr prose.
#[derive(Debug, Clone, Copy, PartialEq, Eq, Hash, Structural)]
pub enum Locale {
    /// English human messages.
    En,
    /// Brazilian Portuguese human messages.
    PtBr,
}

/// Part of a tag before its first encoding or modifier separator (`.` / `@`).
pub open spec fn before_separator(s: Seq<char>) -> Seq<char>
    decreases s.len(),
{
    if s.len() == 0 || s[0] == '.' || s[0] == '@' {
        Seq::empty()
    } else {
        seq![s[0]] + before_separator(s.drop_first())
    }
}

/// Normalized locale tag: trimmed, encoding/modifier suffix dropped, `_` as
/// `-`, ASCII lowercase.
pub open spec fn normalize_tag(tag: Seq<char>) -> Seq<char> {
    lower_seq(replace_all(trim(before_separator(trim(tag))), "_"@, "-"@))
}

/// Locale accepted for an explicit tag, if any.
pub open spec fn supported_locale(tag: Seq<char>) -> Option<Locale> {
    let t = normalize_tag(tag);
    if t.len() == 0 {
        None
    } else if t == "en"@ || starts_with(t, "en-"@) {
        Some(Locale::En)
    } else if t == "pt-br"@ {
        Some(Locale::PtBr)
    } else {
        None
    }
}

/// `e` is the well-formed "unsupported lang" error echoing `echo`.
pub open spec fn unsupported_lang_error(e: AppError, echo: Seq<char>) -> bool {
    &&& e.wf()
    &&& e.detail_of() matches ErrorDetail::UnsupportedLang { tag: t } && t@ == echo
}

/// Soft mapping of a system tag: any `pt` primary language is Portuguese.
pub open spec fn soft_locale(tag: Seq<char>) -> Locale {
    let t = normalize_tag(tag);
    if t == "pt"@ || starts_with(t, "pt-"@) {
        Locale::PtBr
    } else {
        Locale::En
    }
}

fn before_separator_exec(v: &[char]) -> (r: Vec<char>)
    ensures
        r@ == before_separator(v@),
{
    let mut i: usize = 0;
    proof {
        assert(v@.skip(0) == v@);
        assert(v@.take(0) + before_separator(v@) == before_separator(v@));
    }
    while i < v.len() && v[i] != '.' && v[i] != '@'
        invariant
            0 <= i <= v@.len(),
            forall|k: int| 0 <= k < i ==> v@[k] != '.' && v@[k] != '@',
            before_separator(v@) == v@.take(i as int) + before_separator(v@.skip(i as int)),
        decreases v@.len() - i,
    {
        proof {
            let t = v@.skip(i as int);
            assert(t.drop_first() == v@.skip(i + 1));
            assert(v@.take(i + 1) == v@.take(i as int) + seq![t[0]]);
        }
        i = i + 1;
    }
    proof {
        let t = v@.skip(i as int);
        assert(before_separator(t) == Seq::<char>::empty());
        assert(v@.take(i as int) + Seq::<char>::empty() == v@.take(i as int));
    }
    let mut r: Vec<char> = Vec::new();
    let mut k: usize = 0;
    while k < i
        invariant
            0 <= k <= i <= v@.len(),
            r@ == v@.take(k as int),
        decreases i - k,
    {
        r.push(v[k]);
        k = k + 1;
        proof {
            assert(r@ == v@.take(k as int));
        }
    }
    proof {
        assert(v@.skip(0) == v@);
    }
    r
}

/// Normalize a locale tag for comparison (BCP47-ish).
pub fn normalize_lang_tag(tag: &str) -> (r: String)
    ensures
        r@ == normalize_tag(tag@),
{
    let v = chars_of(tag);
    let t1 = trim_chars(v.as_slice());
    let b = before_separator_exec(t1.as_slice());
    let t2 = trim_chars(b.as_slice());
    let u = chars_of("_");
    let d = chars_of("-");
    let rep = replace_all_exec(t2.as_slice(), u.as_slice(), d.as_slice());
    let low = lower_chars(rep.as_slice());
    string_of(low.as_slice())
}

impl Locale {
    /// Stable BCP 47 tag for diagnostics (`en` or `pt-BR`).
    pub fn as_bcp47(self) -> (r: &'static str)
        ensures
            r@ == match self {
                Locale::En => "en"@,
                Locale::PtBr => "pt-BR"@,
            },
    {
        match self {
            Self::En => "en",
            Self::PtBr => "pt-BR",
        }
    }

    /// Parse an explicit lang tag. Fail-closed.
    ///
    /// Accepted after normalization: `en`, `en-*`, and `pt-br` (region must be
    /// BR). Anything else is an `UnsupportedLang` error echoing the tag (an
    /// empty echo when the tag normalizes to nothing).
    pub fn parse_supported(tag: &str) -> (r: Result<Self, AppError>)
        ensures
            match supported_locale(tag@) {
                Some(l) => r == Ok::<Locale, AppError>(l),
                None => r matches Err(e) && unsupported_lang_error(
                    e,
                    if normalize_tag(tag@).len() == 0 {
                        Seq::empty()
                    } else {
                        tag@
                    },
                ),
            },
    {
        let t = normalize_lang_tag(tag);
        let tv = chars_of(t.as_str());
        if tv.len() == 0 {
            return Err(AppError::of(ErrorDetail::UnsupportedLang { tag: String::new() }));
        }
        if eq_str(tv.as_slice(), "en") || str_starts_with(tv.as_slice(), "en-") {
            return Ok(Self::En);
        }
        if eq_str(tv.as_slice(), "pt-br") {
            return Ok(Self::PtBr);
        }
        Err(AppError::of(ErrorDetail::UnsupportedLang { tag: tag.to_owned() }))
    }

    /// Soft map a system/BCP47-ish tag (never errors).
    pub fn soft_from_tag(tag: &str) -> (r: Self)
        ensures
            r == soft_locale(tag@),
    {
        let t = normalize_lang_tag(tag);
        let tv = chars_of(t.as_str());
        if eq_str(tv.as_slice(), "pt") || str_starts_with(tv.as_slice(), "pt-") {
            Self::PtBr
        } else {
            Self::En
        }
    }

    /// Progress line after the progress-hint delay.
    pub fn progress_fetching(self, target: &str) -> (r: String)
        ensures
            r@ == match self {
                Locale::En => "fetching "@ + target@ + "..."@,
                Locale::PtBr => "buscando "@ + target@ + "..."@,
            },
    {
        let mut s = String::new();
        match self {
            Self::En => push_str(&mut s, "fetching "),
            Self::PtBr => push_str(&mut s, "buscando "),
        }
        push_str(&mut s, target);
        push_str(&mut s, "...");
        s
    }

    /// Prefix for human stderr errors.
    pub fn error_prefix(self) -> (r: &'static str)
        ensures
            r@ == match self {
                Locale::En => "error"@,
                Locale::PtBr => "erro"@,
            },
    {
        match self {
            Self::En => "error",
            Self::PtBr => "erro",
        }
    }

    /// Prefix and render an [`AppError`] for human stderr.
    pub fn format_error(self, err: &AppError) -> (r: String)
        ensures
            r@ == match self {
                Locale::En => "error"@ + ": "@ + err.message_of(),
                Locale::PtBr => "erro"@ + ": "@ + pt_br_text(err.detail_of()),
            },
    {
        let mut s = String::new();
        push_str(&mut s, self.error_prefix());
        push_str(&mut s, ": ");
        let body = err.localized(self);
        push_str(&mut s, body.as_str());
        s
    }

    /// Doctor summary line.
    pub fn doctor_ok(self, ok: bool) -> (r: String)
        ensures
            r@ == if ok {
                "doctor: ok"@
            } else {
                match self {
                    Locale::En => "doctor: failed"@,
                    Locale::PtBr => "doctor: falhou"@,
                }
            },
    {
        if ok {
            String::from_str("doctor: ok")
        } else {
            match self {
                Self::En => String::from_str("doctor: failed"),
                Self::PtBr => String::from_str("doctor: falhou"),
            }
        }
    }

    /// Bootstrap failure: a TLS crypto provider was already installed.
    pub fn bootstrap_provider_conflict(self) -> (r: &'static str)
        ensures
            r@ == match self {
                Locale::En => "docsrs-cli: rustls CryptoProvider was already installed; refusing dual init"@,
                Locale::PtBr => "docsrs-cli: o CryptoProvider do rustls já estava instalado; recusando init duplo"@,
            },
    {
        match self {
            Self::En => "docsrs-cli: rustls CryptoProvider was already installed; refusing dual init",
            Self::PtBr => "docsrs-cli: o CryptoProvider do rustls já estava instalado; recusando init duplo",
        }
    }

    /// Bootstrap failure: the async runtime could not be built.
    pub fn bootstrap_runtime_failure(self, detail: &str) -> (r: String)
        ensures
            r@ == match self {
                Locale::En => "docsrs-cli: failed to build async runtime: "@ + detail@,
                Locale::PtBr => "docsrs-cli: falha ao construir o runtime assíncrono: "@ + detail@,
            },
    {
        let mut s = String::new();
        match self {
            Self::En => push_str(&mut s, "docsrs-cli: failed to build async runtime: "),
            Self::PtBr => push_str(&mut s, "docsrs-cli: falha ao construir o runtime assíncrono: "),
        }
        push_str(&mut s, detail);
        s
    }
}

/// First locale the operating system reports (`sys_locale::get_locale`).
///
/// Depends on the host environment; nothing is stated of the value.
#[verifier::external_body]
fn system_locale_tag() -> Option<String> {
    sys_locale::get_locale()
}

/// Locale named by argv for messages emitted before argument parsing: the value
/// of the first `--lang <tag>` or `--lang=<tag>`, soft-mapped; English when
/// absent. A non-UTF-8 argument (`None`) holds no tag and cancels a pending
/// `--lang`.
pub open spec fn bootstrap_locale(args: Seq<Option<&str>>, want_value: bool) -> Locale
    decreases args.len(),
{
    if args.len() == 0 {
        Locale::En
    } else {
        match args[0] {
            None => bootstrap_locale(args.drop_first(), false),
            Some(a) => if want_value {
                soft_locale(a@)
            } else if starts_with(a@, "--lang="@) {
                soft_locale(a@.skip(7))
            } else if a@ == "--lang"@ {
                bootstrap_locale(args.drop_first(), true)
            } else {
                bootstrap_locale(args.drop_first(), false)
            },
        }
    }
}

impl Locale {
    /// Resolve locale with fail-closed explicit tags and soft system fallback.
    ///
    /// Precedence: `explicit` (CLI/config) → system locale → `en`.
    pub fn resolve(explicit: Option<&str>) -> (r: Result<Self, AppError>)
        ensures
            match explicit {
                Some(tag) => match supported_locale(tag@) {
                    Some(l) => r == Ok::<Locale, AppError>(l),
                    None => r matches Err(e) && unsupported_lang_error(
                        e,
                        if normalize_tag(tag@).len() == 0 {
                            Seq::empty()
                        } else {
                            tag@
                        },
                    ),
                },
                None => r is Ok,
            },
    {
        match explicit {
            Some(tag) => Self::parse_supported(tag),
            None => Ok(Self::from_system()),
        }
    }

    /// Resolution with no explicit tag, as the product resolver takes it.
    pub fn resolve_ignores_product_env_for_tests() -> (r: Result<Self, AppError>)
        ensures
            r is Ok,
    {
        Self::resolve(None)
    }

    /// Locale of a system tag: soft-mapped when present, English when absent.
    pub fn from_system_tag(tag: Option<&str>) -> (r: Self)
        ensures
            r == match tag {
                Some(t) => soft_locale(t@),
                None => Locale::En,
            },
    {
        match tag {
            Some(t) => Self::soft_from_tag(t),
            None => Self::En,
        }
    }

    /// Soft-detect from the OS locale (unknown tags → English).
    pub fn from_system() -> (r: Self)
        ensures
            r == Locale::En || exists|t: Seq<char>| r == #[trigger] soft_locale(t),
    {
        let sys = system_locale_tag();
        match sys {
            Some(t) => Self::from_system_tag(Some(t.as_str())),
            None => Self::from_system_tag(None),
        }
    }

    /// Locale for messages emitted before argv is parsed (`--lang` scan only,
    /// soft mapping, English by default).
    pub fn from_argv_for_bootstrap(args: &[Option<&str>]) -> (r: Self)
        ensures
            r == bootstrap_locale(args@, false),
    {
        let mut want_value = false;
        let mut i: usize = 0;
        proof {
            assert(args@.skip(0) == args@);
        }
        while i < args.len()
            invariant
                0 <= i <= args@.len(),
                bootstrap_locale(args@.skip(i as int), want_value) == bootstrap_locale(args@, false),
            decreases args@.len() - i,
        {
            proof {
                assert(args@.skip(i as int).drop_first() == args@.skip(i + 1));
                assert(args@.skip(i as int)[0] == args@[i as int]);
            }
            match args[i] {
                None => {
                    want_value = false;
                },
                Some(a) => {
                    if want_value {
                        return Self::soft_from_tag(a);
                    }
                    let v = chars_of(a);
                    if str_starts_with(v.as_slice(), "--lang=") {
                        let mut rest: Vec<char> = Vec::new();
                        let mut k: usize = 7;
                        proof {
                            reveal_strlit("--lang=");
                        }
                        while k < v.len()
                            invariant
                                7 <= k <= v@.len(),
                                rest@ == v@.subrange(7, k as int),
                            decreases v@.len() - k,
                        {
                            rest.push(v[k]);
                            k = k + 1;
                        }
                        proof {
                            assert(rest@ == a@.skip(7));
                        }
                        let t = string_of(rest.as_slice());
                        return Self::soft_from_tag(t.as_str());
                    }
                    if eq_str(v.as_slice(), "--lang") {
                        want_value = true;
                    } else {
                        want_value = false;
                    }
                },
            }
            i = i + 1;
        }
        Self::En
    }
}

fn replace_str(v: &[char], from: &str, to: &str) -> (r: Vec<char>)
    ensures
        r@ == replace_all(v@, from@, to@),
{
    let f = chars_of(from);
    let t = chars_of(to);
    replace_all_exec(v, f.as_slice(), t.as_slice())
}

/// Phrase translation of a free-form English error message into Portuguese:
/// the first rule whose trigger matches rewrites the message; an unmatched
/// message stays English.
pub open spec fn translate_pt_br(t: Seq<char>) -> Seq<char> {
    if starts_with(t, "unsupported lang"@) {
        replace_all(replace_all(t, "unsupported lang"@, "idioma não suportado"@), "expected en or pt-BR"@, "esperado en ou pt-BR"@)
    } else if starts_with(t, "crate name is empty"@) {
        "nome da crate está vazio"@
    } else if starts_with(t, "crate name exceeds"@) {
        replace_all(t, "crate name exceeds"@, "nome da crate excede"@)
    } else if starts_with(t, "invalid crate name"@) {
        replace_all(t, "invalid crate name"@, "nome de crate inválido"@)
    } else if starts_with(t, "search query is empty"@) {
        "consulta de busca está vazia"@
    } else if starts_with(t, "query exceeds"@) {
        replace_all(t, "query exceeds"@, "consulta excede"@)
    } else if starts_with(t, "item path is empty"@) {
        "caminho do item está vazio"@
    } else if starts_with(t, "item path exceeds"@) {
        replace_all(t, "item path exceeds"@, "caminho do item excede"@)
    } else if starts_with(t, "item path missing item name"@) {
        "caminho do item sem nome do item"@
    } else if starts_with(t, "invalid item path segment"@) {
        replace_all(t, "invalid item path segment"@, "segmento de caminho de item inválido"@)
    } else if starts_with(t, "item path segment contains whitespace"@) {
        replace_all(t, "item path segment contains whitespace"@, "segmento de caminho de item contém espaço em branco"@)
    } else if starts_with(t, "version exceeds"@) {
        replace_all(t, "version exceeds"@, "versão excede"@)
    } else if starts_with(t, "invalid version"@) {
        replace_all(t, "invalid version"@, "versão inválida"@)
    } else if starts_with(t, "unknown item type"@) {
        replace_all(t, "unknown item type"@, "tipo de item desconhecido"@)
    } else if (contains(t, "not found"@) || contains(t, "Not Found"@)) {
        replace_all(replace_all(replace_all(t, "not found"@, "não encontrado"@), "Not Found"@, "Não encontrado"@), "resource not found"@, "recurso não encontrado"@)
    } else if starts_with(t, "rate limited"@) {
        replace_all(t, "rate limited by remote"@, "limitado por taxa no remoto"@)
    } else if starts_with(t, "wall-clock timeout"@) {
        replace_all(t, "wall-clock timeout after"@, "tempo esgotado após"@)
    } else if starts_with(t, "response body exceeds max_body_bytes"@) {
        replace_all(t, "response body exceeds max_body_bytes"@, "corpo da resposta excede max_body_bytes"@)
    } else if starts_with(t, "timeout must be >="@) {
        replace_all(replace_all(t, "timeout must be >= 1 second (got 0)"@, "timeout deve ser >= 1 segundo (recebido 0)"@), "timeout must be >="@, "timeout deve ser >="@)
    } else if starts_with(t, "connect_timeout must be >="@) {
        replace_all(t, "connect_timeout must be >= 1 second (got 0)"@, "connect_timeout deve ser >= 1 segundo (recebido 0)"@)
    } else if starts_with(t, "interrupted by SIGINT"@) {
        "interrompido por SIGINT"@
    } else if starts_with(t, "terminated by SIGTERM"@) {
        "encerrado por SIGTERM"@
    } else if starts_with(t, "broken pipe"@) {
        "pipe quebrado ao escrever em stdout"@
    } else if starts_with(t, "host not allowlisted"@) {
        replace_all(t, "host not allowlisted"@, "host fora da allowlist"@)
    } else if starts_with(t, "redirect host not allowlisted"@) {
        replace_all(t, "redirect host not allowlisted"@, "host de redirecionamento fora da allowlist"@)
    } else if starts_with(t, "cannot combine --json"@) {
        "não é possível combinar --json com --format text ou --format markdown"@
    } else if starts_with(t, "unknown schema command"@) {
        replace_all(t, "unknown schema command"@, "comando de schema desconhecido"@)
    } else if starts_with(t, "bad request from remote"@) {
        replace_all(t, "bad request from remote"@, "requisição inválida do remoto"@)
    } else if starts_with(t, "remote unavailable"@) {
        replace_all(t, "remote unavailable"@, "remoto indisponível"@)
    } else if starts_with(t, "unexpected HTTP status"@) {
        replace_all(t, "unexpected HTTP status"@, "status HTTP inesperado"@)
    } else if starts_with(t, "response body exceeds"@) {
        replace_all(t, "response body exceeds"@, "corpo da resposta excede"@)
    } else if starts_with(t, "response body is not valid UTF-8"@) {
        "corpo da resposta não é UTF-8 válido"@
    } else {
        t
    }
}

/// Best-effort human translation of a free-form English error message (stderr only).
///
/// Technical JSON envelopes always keep the English `message` field.
pub fn translate_error_pt_br(technical_en: &str) -> (r: String)
    ensures
        r@ == translate_pt_br(technical_en@),
{
    let v = chars_of(technical_en);
    if str_starts_with(v.as_slice(), "unsupported lang") {
        let w = v;
        let w = replace_str(w.as_slice(), "unsupported lang", "idioma não suportado");
        let w = replace_str(w.as_slice(), "expected en or pt-BR", "esperado en ou pt-BR");
        return string_of(w.as_slice());
    }
    if str_starts_with(v.as_slice(), "crate name is empty") {
        return String::from_str("nome da crate está vazio");
    }
    if str_starts_with(v.as_slice(), "crate name exceeds") {
        let w = v;
        let w = replace_str(w.as_slice(), "crate name exceeds", "nome da crate excede");
        return string_of(w.as_slice());
    }
    if str_starts_with(v.as_slice(), "invalid crate name") {
        let w = v;
        let w = replace_str(w.as_slice(), "invalid crate name", "nome de crate inválido");
        return string_of(w.as_slice());
    }
    if str_starts_with(v.as_slice(), "search query is empty") {
        return String::from_str("consulta de busca está vazia");
    }
    if str_starts_with(v.as_slice(), "query exceeds") {
        let w = v;
        let w = replace_str(w.as_slice(), "query exceeds", "consulta excede");
        return string_of(w.as_slice());
    }
    if str_starts_with(v.as_slice(), "item path is empty") {
        return String::from_str("caminho do item está vazio");
    }
    if str_starts_with(v.as_slice(), "item path exceeds") {
        let w = v;
        let w = replace_str(w.as_slice(), "item path exceeds", "caminho do item excede");
        return string_of(w.as_slice());
    }
    if str_starts_with(v.as_slice(), "item path missing item name") {
        return String::from_str("caminho do item sem nome do item");
    }
    if str_starts_with(v.as_slice(), "invalid item path segment") {
        let w = v;
        let w = replace_str(w.as_slice(), "invalid item path segment", "segmento de caminho de item inválido");
        return string_of(w.as_slice());
    }
    if str_starts_with(v.as_slice(), "item path segment contains whitespace") {
        let w = v;
        let w = replace_str(w.as_slice(), "item path segment contains whitespace", "segmento de caminho de item contém espaço em branco");
        return string_of(w.as_slice());
    }
    if str_starts_with(v.as_slice(), "version exceeds") {
        let w = v;
        let w = replace_str(w.as_slice(), "version exceeds", "versão excede");
        return string_of(w.as_slice());
    }
    if str_starts_with(v.as_slice(), "invalid version") {
        let w = v;
        let w = replace_str(w.as_slice(), "invalid version", "versão inválida");
        return string_of(w.as_slice());
    }
    if str_starts_with(v.as_slice(), "unknown item type") {
        let w = v;
        let w = replace_str(w.as_slice(), "unknown item type", "tipo de item desconhecido");
        return string_of(w.as_slice());
    }
    if str_contains(v.as_slice(), "not found") || str_contains(v.as_slice(), "Not Found") {
        let w = v;
        let w = replace_str(w.as_slice(), "not found", "não encontrado");
        let w = replace_str(w.as_slice(), "Not Found", "Não encontrado");
        let w = replace_str(w.as_slice(), "resource not found", "recurso não encontrado");
        return string_of(w.as_slice());
    }
    if str_starts_with(v.as_slice(), "rate limited") {
        let w = v;
        let w = replace_str(w.as_slice(), "rate limited by remote", "limitado por taxa no remoto");
        return string_of(w.as_slice());
    }
    if str_starts_with(v.as_slice(), "wall-clock timeout") {
        let w = v;
        let w = replace_str(w.as_slice(), "wall-clock timeout after", "tempo esgotado após");
        return string_of(w.as_slice());
    }
    if str_starts_with(v.as_slice(), "response body exceeds max_body_bytes") {
        let w = v;
        let w = replace_str(w.as_slice(), "response body exceeds max_body_bytes", "corpo da resposta excede max_body_bytes");
        return string_of(w.as_slice());
    }
    if str_starts_with(v.as_slice(), "timeout must be >=") {
        let w = v;
        let w = replace_str(w.as_slice(), "timeout must be >= 1 second (got 0)", "timeout deve ser >= 1 segundo (recebido 0)");
        let w = replace_str(w.as_slice(), "timeout must be >=", "timeout deve ser >=");
        return string_of(w.as_slice());
    }
    if str_starts_with(v.as_slice(), "connect_timeout must be >=") {
        let w = v;
        let w = replace_str(w.as_slice(), "connect_timeout must be >= 1 second (got 0)", "connect_timeout deve ser >= 1 segundo (recebido 0)");
        return string_of(w.as_slice());
    }
    if str_starts_with(v.as_slice(), "interrupted by SIGINT") {
        return String::from_str("interrompido por SIGINT");
    }
    if str_starts_with(v.as_slice(), "terminated by SIGTERM") {
        return String::from_str("encerrado por SIGTERM");
    }
    if str_starts_with(v.as_slice(), "broken pipe") {
        return String::from_str("pipe quebrado ao escrever em stdout");
    }
    if str_starts_with(v.as_slice(), "host not allowlisted") {
        let w = v;
        let w = replace_str(w.as_slice(), "host not allowlisted", "host fora da allowlist");
        return string_of(w.as_slice());
    }
    if str_starts_with(v.as_slice(), "redirect host not allowlisted") {
        let w = v;
        let w = replace_str(w.as_slice(), "redirect host not allowlisted", "host de redirecionamento fora da allowlist");
        return string_of(w.as_slice());
    }
    if str_starts_with(v.as_slice(), "cannot combine --json") {
        return String::from_str("não é possível combinar --json com --format text ou --format markdown");
    }
    if str_starts_with(v.as_slice(), "unknown schema command") {
        let w = v;
        let w = replace_str(w.as_slice(), "unknown schema command", "comando de schema desconhecido");
        return string_of(w.as_slice());
    }
    if str_starts_with(v.as_slice(), "bad request from remote") {
        let w = v;
        let w = replace_str(w.as_slice(), "bad request from remote", "requisição inválida do remoto");
        return string_of(w.as_slice());
    }
    if str_starts_with(v.as_slice(), "remote unavailable") {
        let w = v;
        let w = replace_str(w.as_slice(), "remote unavailable", "remoto indisponível");
        return string_of(w.as_slice());
    }
    if str_starts_with(v.as_slice(), "unexpected HTTP status") {
        let w = v;
        let w = replace_str(w.as_slice(), "unexpected HTTP status", "status HTTP inesperado");
        return string_of(w.as_slice());
    }
    if str_starts_with(v.as_slice(), "response body exceeds") {
        let w = v;
        let w = replace_str(w.as_slice(), "response body exceeds", "corpo da resposta excede");
        return string_of(w.as_slice());
    }
    if str_starts_with(v.as_slice(), "response body is not valid UTF-8") {
        return String::from_str("corpo da resposta não é UTF-8 válido");
    }
    string_of(v.as_slice())
}

/// Without `.` or `@`, nothing is cut as an encoding or modifier suffix.
proof fn lemma_before_separator_absent(s: Seq<char>)
    requires
        forall|k: int| 0 <= k < s.len() ==> s[k] != '.' && s[k] != '@',
    ensures
        before_separator(s) == s,
    decreases s.len(),
{
    if s.len() > 0 {
        assert forall|k: int| 0 <= k < s.drop_first().len() implies s.drop_first()[k] != '.'
            && s.drop_first()[k] != '@' by {
            assert(s.drop_first()[k] == s[k + 1]);
        }
        lemma_before_separator_absent(s.drop_first());
        assert(seq![s[0]] + s.drop_first() =~= s);
    }
}

/// Every locale's BCP 47 tag is accepted back as that locale, both by the
/// fail-closed parser and by the soft system mapping.
pub proof fn lemma_locale_tag_round_trip(l: Locale)
    ensures
        ({
            let tag = match l {
                Locale::En => "en"@,
                Locale::PtBr => "pt-BR"@,
            };
            supported_locale(tag) == Some(l) && soft_locale(tag) == l
        }),
{
    reveal_strlit("en");
    reveal_strlit("pt-BR");
    reveal_strlit("pt-br");
    reveal_strlit("en-");
    reveal_strlit("pt");
    reveal_strlit("pt-");
    reveal_strlit("_");
    reveal_strlit("-");
    let tag = match l {
        Locale::En => "en"@,
        Locale::PtBr => "pt-BR"@,
    };
    lemma_trim_noop(tag);
    lemma_before_separator_absent(tag);
    lemma_replace_single_absent(tag, "_"@, "-"@);
    let t = normalize_tag(tag);
    match l {
        Locale::En => {
            lemma_lower_noop(tag);
            assert(t == "en"@);
            assert(!starts_with(t, "pt-"@));
            assert(t != "pt"@);
        },
        Locale::PtBr => {
            assert(t =~= "pt-br"@);
            assert(t != "en"@);
            assert(!starts_with(t, "en-"@)) by {
                assert(t.take(3)[0] == 'p');
            }
            assert(t != "pt"@);
            assert(starts_with(t, "pt-"@)) by {
                assert(t.take(3) =~= "pt-"@);
            }
        },
    }
}

} // verus!
