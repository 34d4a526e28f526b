//! Portuguese renderings — stderr prose for a human reader.
//!
//! Carries no wire contract: the JSON `message` is always English. Knob names
//! (`max_body_bytes`) stay verbatim because the operator types them into
//! `config.toml`; they are identifiers, not words.

use vstd::prelude::*;

use super::detail::ErrorDetail;
use super::render_en::{content_label, io_path_part, io_path_part_exec};
use super::suggestion::{join_suggestions, suggestions_text};
use super::vocab::{
    subject_gender, AllowlistStage, DestructiveEffect, GenderPtBr, InternalOp, IoCause, IoOp,
    Subject,
};
use crate::i18n::{translate_error_pt_br, translate_pt_br};
use crate::text::{dec, push_dec, push_str};

verus! {

/// Portuguese name of a subject inside a sentence.
pub open spec fn subject_pt_br(s: Subject) -> Seq<char> {
    match s {
        Subject::CrateName => "nome da crate"@,
        Subject::CrateRef => "referência de crate"@,
        Subject::SearchQuery => "consulta de busca"@,
        Subject::ItemPath => "caminho do item"@,
        Subject::ItemPathSegment => "segmento de caminho de item"@,
        Subject::Version => "versão"@,
        Subject::PageToken => "page-token"@,
        Subject::UserAgent => "user-agent"@,
        Subject::Contact => "contato"@,
        Subject::Origin => "URL de origem"@,
        Subject::Timeout => "timeout"@,
        Subject::ConnectTimeout => "connect_timeout"@,
        Subject::MaxBodyBytes => "max_body_bytes"@,
        Subject::MaxOutputBytes => "max_output_bytes"@,
        Subject::ConfigFile => "config.toml"@,
        Subject::LogDirective => "log_directive"@,
    }
}

impl Subject {
    /// Portuguese name used inside a rendered sentence.
    pub fn pt_br(self) -> (r: &'static str)
        ensures
            r@ == subject_pt_br(self),
    {
        match self {
            Self::CrateName => "nome da crate",
            Self::CrateRef => "referência de crate",
            Self::SearchQuery => "consulta de busca",
            Self::ItemPath => "caminho do item",
            Self::ItemPathSegment => "segmento de caminho de item",
            Self::Version => "versão",
            Self::PageToken => "page-token",
            Self::UserAgent => "user-agent",
            Self::Contact => "contato",
            Self::Origin => "URL de origem",
            Self::Timeout => "timeout",
            Self::ConnectTimeout => "connect_timeout",
            Self::MaxBodyBytes => "max_body_bytes",
            Self::MaxOutputBytes => "max_output_bytes",
            Self::ConfigFile => "config.toml",
            Self::LogDirective => "log_directive",
        }
    }
}

/// "empty", agreeing in gender with the subject's noun.
pub open spec fn empty_adj_pt_br(s: Subject) -> Seq<char> {
    match subject_gender(s) {
        GenderPtBr::Masculine => "vazio"@,
        GenderPtBr::Feminine => "vazia"@,
    }
}

fn empty_adj_pt_br_exec(s: Subject) -> (r: &'static str)
    ensures
        r@ == empty_adj_pt_br(s),
{
    match s.gender_pt_br() {
        GenderPtBr::Masculine => "vazio",
        GenderPtBr::Feminine => "vazia",
    }
}

/// "invalid", agreeing in gender with the subject's noun.
pub open spec fn invalid_adj_pt_br(s: Subject) -> Seq<char> {
    match subject_gender(s) {
        GenderPtBr::Masculine => "inválido"@,
        GenderPtBr::Feminine => "inválida"@,
    }
}

fn invalid_adj_pt_br_exec(s: Subject) -> (r: &'static str)
    ensures
        r@ == invalid_adj_pt_br(s),
{
    match s.gender_pt_br() {
        GenderPtBr::Masculine => "inválido",
        GenderPtBr::Feminine => "inválida",
    }
}

/// Portuguese verb phrase of a filesystem operation.
pub open spec fn io_op_pt_br(op: IoOp) -> Seq<char> {
    match op {
        IoOp::Read => "ler"@,
        IoOp::Write => "escrever"@,
        IoOp::CreateDir => "criar diretório"@,
        IoOp::CreateTemp => "criar arquivo temporário"@,
        IoOp::Rename => "renomear"@,
        IoOp::Sync => "sincronizar"@,
        IoOp::Install => "instalar"@,
        IoOp::OpenLock => "abrir arquivo de lock"@,
        IoOp::Lock => "obter lock exclusivo"@,
        IoOp::ReadDir => "listar diretório"@,
        IoOp::Remove => "remover"@,
    }
}

impl IoOp {
    /// Portuguese verb phrase of this operation.
    pub fn pt_br(self) -> (r: &'static str)
        ensures
            r@ == io_op_pt_br(self),
    {
        match self {
            Self::Read => "ler",
            Self::Write => "escrever",
            Self::CreateDir => "criar diretório",
            Self::CreateTemp => "criar arquivo temporário",
            Self::Rename => "renomear",
            Self::Sync => "sincronizar",
            Self::Install => "instalar",
            Self::OpenLock => "abrir arquivo de lock",
            Self::Lock => "obter lock exclusivo",
            Self::ReadDir => "listar diretório",
            Self::Remove => "remover",
        }
    }
}

/// Portuguese sentence of an internal failure.
pub open spec fn internal_op_pt_br(op: InternalOp) -> Seq<char> {
    match op {
        InternalOp::JsonSerialize => "falha ao serializar JSON"@,
        InternalOp::JsonPrettyPrint => "falha ao formatar JSON"@,
        InternalOp::StdoutWrite => "falha ao escrever em stdout"@,
        InternalOp::EmbeddedSchemaInvalid => "o schema embutido não é JSON válido"@,
        InternalOp::UrlBuild => "URL construída é inválida"@,
        InternalOp::SemaphoreClosed => "semáforo de concorrência fechado"@,
        InternalOp::WorkerJoin => "falha ao aguardar worker de CPU"@,
        InternalOp::WorkerPanic => "worker de CPU entrou em pânico durante o parse"@,
        InternalOp::ClockBeforeEpoch => "relógio do sistema anterior à época UNIX"@,
        InternalOp::CacheKeyMalformed => "chave de cache não é sha256 hex válido (invariante interna quebrada)"@,
        InternalOp::AssocPathTooShort => "invariante de caminho de item associado quebrada: esperados ao menos 2 segmentos"@,
        InternalOp::AssocParentOwnsNoPage => "o kind pai do item associado não tem página no rustdoc"@,
        InternalOp::AllowedOriginUnparseable => "a origem permitida não é uma URL válida"@,
        InternalOp::SyntheticParseFailure => "falha de parse sintética"@,
    }
}

impl InternalOp {
    /// Portuguese sentence of this internal failure.
    pub fn pt_br(self) -> (r: &'static str)
        ensures
            r@ == internal_op_pt_br(self),
    {
        match self {
            Self::JsonSerialize => "falha ao serializar JSON",
            Self::JsonPrettyPrint => "falha ao formatar JSON",
            Self::StdoutWrite => "falha ao escrever em stdout",
            Self::EmbeddedSchemaInvalid => "o schema embutido não é JSON válido",
            Self::UrlBuild => "URL construída é inválida",
            Self::SemaphoreClosed => "semáforo de concorrência fechado",
            Self::WorkerJoin => "falha ao aguardar worker de CPU",
            Self::WorkerPanic => "worker de CPU entrou em pânico durante o parse",
            Self::ClockBeforeEpoch => "relógio do sistema anterior à época UNIX",
            Self::CacheKeyMalformed => "chave de cache não é sha256 hex válido (invariante interna quebrada)",
            Self::AssocPathTooShort => "invariante de caminho de item associado quebrada: esperados ao menos 2 segmentos",
            Self::AssocParentOwnsNoPage => "o kind pai do item associado não tem página no rustdoc",
            Self::AllowedOriginUnparseable => "a origem permitida não é uma URL válida",
            Self::SyntheticParseFailure => "falha de parse sintética",
        }
    }
}

/// Portuguese name of an allowlist stage.
pub open spec fn stage_pt_br(s: AllowlistStage) -> Seq<char> {
    match s {
        AllowlistStage::Request => "host"@,
        AllowlistStage::Redirect => "host de redirecionamento"@,
        AllowlistStage::FinalUrl => "host da URL final"@,
    }
}

impl AllowlistStage {
    /// Portuguese name of this stage.
    pub fn pt_br(self) -> (r: &'static str)
        ensures
            r@ == stage_pt_br(self),
    {
        match self {
            Self::Request => "host",
            Self::Redirect => "host de redirecionamento",
            Self::FinalUrl => "host da URL final",
        }
    }
}

/// Portuguese verb of a destructive effect.
pub open spec fn harm_pt_br(e: DestructiveEffect) -> Seq<char> {
    match e {
        DestructiveEffect::Delete => "apagaria"@,
        DestructiveEffect::Overwrite => "sobrescreveria"@,
    }
}

fn harm_pt_br_exec(e: DestructiveEffect) -> (r: &'static str)
    ensures
        r@ == harm_pt_br(e),
{
    match e {
        DestructiveEffect::Delete => "apagaria",
        DestructiveEffect::Overwrite => "sobrescreveria",
    }
}

/// Portuguese sentence for a remote HTTP status.
pub open spec fn http_status_pt_br(status: u16, hint: Seq<char>) -> Seq<char> {
    if status == 400 {
        "requisição inválida no remoto: "@ + hint
    } else if status == 404 {
        "recurso não encontrado: "@ + hint
    } else if status == 408 {
        "tempo esgotado no remoto (HTTP 408): "@ + hint
    } else if status == 429 {
        "limitado por taxa no remoto: "@ + hint
    } else if status == 500 || status == 502 || status == 503 || status == 504 {
        "remoto indisponível (HTTP "@ + dec(status as nat) + "): "@ + hint
    } else {
        "status HTTP inesperado "@ + dec(status as nat) + ": "@ + hint
    }
}

fn http_status_pt_br_exec(status: u16, hint: &str) -> (r: String)
    ensures
        r@ == http_status_pt_br(status, hint@),
{
    let mut s = String::new();
    if status == 400 {
        push_str(&mut s, "requisição inválida no remoto: ");
    } else if status == 404 {
        push_str(&mut s, "recurso não encontrado: ");
    } else if status == 408 {
        push_str(&mut s, "tempo esgotado no remoto (HTTP 408): ");
    } else if status == 429 {
        push_str(&mut s, "limitado por taxa no remoto: ");
    } else if status == 500 || status == 502 || status == 503 || status == 504 {
        push_str(&mut s, "remoto indisponível (HTTP ");
        push_dec(&mut s, status as u64);
        push_str(&mut s, "): ");
    } else {
        push_str(&mut s, "status HTTP inesperado ");
        push_dec(&mut s, status as u64);
        push_str(&mut s, ": ");
    }
    push_str(&mut s, hint);
    s
}

/// Portuguese hint telling whether the same command may succeed later.
pub open spec fn io_hint_pt_br(c: IoCause) -> Seq<char> {
    match c {
        IoCause::Transient => " (transitório; o mesmo comando pode funcionar quando a condição passar)"@,
        IoCause::Permanent => " (permanente; o ambiente precisa mudar antes)"@,
    }
}

fn io_hint_pt_br_exec(c: IoCause) -> (r: &'static str)
    ensures
        r@ == io_hint_pt_br(c),
{
    match c {
        IoCause::Transient => " (transitório; o mesmo comando pode funcionar quando a condição passar)",
        IoCause::Permanent => " (permanente; o ambiente precisa mudar antes)",
    }
}

/// Brazilian Portuguese rendering of a failure: stderr prose, never the wire message.
pub open spec fn pt_br_text(d: ErrorDetail) -> Seq<char>
    decreases d,
{
    match d {
        ErrorDetail::Empty { subject } => subject_pt_br(subject) + " está "@ + empty_adj_pt_br(subject),
        ErrorDetail::TooLong { subject, limit } => subject_pt_br(subject) + " excede "@ + dec(limit as nat) + " caracteres"@,
        ErrorDetail::Invalid { subject, value } => subject_pt_br(subject) + " "@ + invalid_adj_pt_br(subject) + ": '"@ + value@ + "'"@,
        ErrorDetail::ControlCharacters { subject } => subject_pt_br(subject) + " contém caracteres de controle ou invisíveis"@,
        ErrorDetail::NotVisibleAscii { subject } => subject_pt_br(subject) + " deve ser ASCII visível (sem caracteres de controle nem não-ASCII)"@,
        ErrorDetail::ContainsWhitespace { subject, value } => subject_pt_br(subject) + " contém espaço em branco: '"@ + value@ + "'"@,
        ErrorDetail::MustBeAtLeastOneSecond { subject, .. } => subject_pt_br(subject) + " deve ser >= 1 segundo (recebido 0)"@,
        ErrorDetail::AboveHardMaximum { subject, hard_max, .. } => subject_pt_br(subject) + " excede o máximo absoluto ("@ + dec(hard_max as nat) + ")"@,
        ErrorDetail::ItemPathNoSegments => "caminho do item não tem segmentos"@,
        ErrorDetail::ItemPathMissingItemName => "caminho do item sem nome do item"@,
        ErrorDetail::CrateRefMultipleAt => "referência de crate deve conter no máximo um '@'"@,
        ErrorDetail::CrateRefEmptyName => "nome da crate está vazio antes do '@'"@,
        ErrorDetail::CrateRefEmptyVersion => "versão está vazia após o '@'"@,
        ErrorDetail::VersionBuildMetadata => "metadados de build da versão não são aceitos"@,
        ErrorDetail::VersionVPrefix => "a versão não deve começar com o prefixo 'v'"@,
        ErrorDetail::UnknownMatchMode { value } => "modo de correspondência desconhecido '"@ + value@ + "' (esperado exact|prefix|substring)"@,
        ErrorDetail::UnknownItemType { value } => "tipo de item desconhecido '"@ + value@ + "'"@,
        ErrorDetail::UnsupportedLang { tag } => "idioma não suportado '"@ + tag@ + "'; esperado en ou pt-BR"@,
        ErrorDetail::UnknownSchemaCommand { value } => "comando de schema desconhecido '"@ + value@ + "'"@,
        ErrorDetail::JsonFormatConflict => "não é possível combinar --json com --format text ou --format markdown"@,
        ErrorDetail::ClapUsage { message } => message@,
        ErrorDetail::InvalidFilterExpression { expr, reason } => "expressão --filter inválida `"@ + expr@ + "`: "@ + reason@,
        ErrorDetail::ModuleFilterUnsupported => "search-in-crate --item-type module não é suportado (all.html não tem índice de módulos); use get-item com kind module"@,
        ErrorDetail::AmbientTargetRefused { verb, target, target_flag, waiver_flag, effect } => verb@ + " "@ + harm_pt_br(effect) + " um alvo de ambiente que nunca lhe foi dado: "@ + target@ + "; nomeie-o no argv com "@ + target_flag@ + " <DIR>, ou aceite-o com "@ + waiver_flag@,
        ErrorDetail::PageBelowOne => "page deve ser >= 1 (recebido 0 ou ausente)"@,
        ErrorDetail::PerPageOutOfRange { max, got } => "per_page deve estar em 1..="@ + dec(max as nat) + " (recebido "@ + dec(got as nat) + ")"@,
        ErrorDetail::OriginBadScheme { scheme } => "o esquema da origem deve ser http ou https, recebido '"@ + scheme@ + "'"@,
        ErrorDetail::OriginMissingHost { url } => "a URL de origem deve incluir um host: '"@ + url@ + "'"@,
        ErrorDetail::OriginNotAllowlisted { host, allowed } => "host de origem fora da allowlist: '"@ + host@ + "' (permitidos: "@ + allowed@ + "; loopback exige allow_loopback via CLI ou config.toml)"@,
        ErrorDetail::ItemPathSegmentCharset { segment } => "segmento de caminho de item inválido '"@ + segment@ + "' (use letras, dígitos, sublinhado ou hífen; hifens viram sublinhado; separe com :: ou /)"@,
        ErrorDetail::ConflictingVersions { from_ref, from_flag } => "versões conflitantes: crate@"@ + from_ref@ + " vs --crate-version "@ + from_flag@,
        ErrorDetail::ConfigDirUnresolved => "não foi possível resolver o diretório de configuração (defina --config-dir ou garanta o XDG config home)"@,
        ErrorDetail::CacheDirUnresolved => "não foi possível resolver o diretório de cache (defina --cache-dir ou garanta o XDG cache home)"@,
        ErrorDetail::ConfigTomlInvalid => "config.toml inválido"@,
        ErrorDetail::ConfigTomlNotUtf8 => "config.toml não é UTF-8 válido"@,
        ErrorDetail::ConfigTomlTooLarge { max_bytes } => "config.toml excede o tamanho máximo ("@ + dec(max_bytes as nat) + " bytes)"@,
        ErrorDetail::ConfigAlreadyExists { path } => "a configuração já existe: "@ + path@ + " (use --force para sobrescrever)"@,
        ErrorDetail::UserAgentHeaderInvalid => "cabeçalho user-agent inválido"@,
        ErrorDetail::HttpStatus { status, hint } => http_status_pt_br(status, hint@),
        ErrorDetail::HostNotAllowlisted { host, stage } => stage_pt_br(stage) + " fora da allowlist: "@ + host@,
        ErrorDetail::HttpRequestFailed { url, .. } => "a requisição HTTP falhou para "@ + url@,
        ErrorDetail::RedirectLimitExceeded => "limite de redirecionamentos excedido"@,
        ErrorDetail::HttpClientBuild => "falha ao construir o cliente HTTP"@,
        ErrorDetail::BodyRead => "falha ao ler o corpo da resposta"@,
        ErrorDetail::BodyOverBudget { max_bytes } => "corpo da resposta excede max_body_bytes ("@ + dec(max_bytes as nat) + ")"@,
        ErrorDetail::CachedBodyOverBudget { max_bytes } => "corpo em cache excede max_body_bytes ("@ + dec(max_bytes as nat) + ")"@,
        ErrorDetail::BodyReserveFailed { bytes } => "falha ao reservar "@ + dec(bytes as nat) + " bytes para o corpo da resposta"@,
        ErrorDetail::BodyNotUtf8 => "corpo da resposta não é UTF-8 válido"@,
        ErrorDetail::UnexpectedContentType { expected, got } => "Content-Type inesperado para resposta "@ + content_label(expected) + ": "@ + got@,
        ErrorDetail::OutputOverBudget => "corpo grande demais"@,
        ErrorDetail::HtmlToMarkdown => "falha ao converter HTML para Markdown"@,
        ErrorDetail::CratesIoJson => "falha ao parsear o JSON do crates.io"@,
        ErrorDetail::AssocParentPageNotFound => "página do tipo pai não encontrada"@,
        ErrorDetail::AssocAnchorMissing { anchors } => "âncora de item associado não encontrada: "@ + anchors@,
        ErrorDetail::AssocAnchorEmpty { anchor_id } => "âncora de item associado vazia: "@ + anchor_id@,
        ErrorDetail::MemberKindNeedsParent { kind, member, parent_kinds } => kind@ + " não tem página própria: qualifique como Pai::"@ + member@ + " (kinds de pai: "@ + parent_kinds@ + ")"@,
        ErrorDetail::HitJoinFailed => "falha ao resolver o href (fora da origem ou inválido contra a base source_url)"@,
        ErrorDetail::HitBaseInvalid => "source_url inválida como base de resolução"@,
        ErrorDetail::Interrupted => "interrompido por SIGINT"@,
        ErrorDetail::Terminated => "encerrado por SIGTERM"@,
        ErrorDetail::BrokenPipe => "pipe quebrado ao escrever em stdout"@,
        ErrorDetail::WallClockTimeout { secs } => "tempo esgotado após "@ + dec(secs as nat) + "s"@,
        ErrorDetail::Io { op, path, cause } => "falha ao "@ + io_op_pt_br(op) + io_path_part(path) + io_hint_pt_br(cause),
        ErrorDetail::Internal { op } => internal_op_pt_br(op),
        ErrorDetail::Message { text, .. } => translate_pt_br(text@),
        ErrorDetail::WithSuggestions { base, suggestions } => pt_br_text(*base) + "; sugestões: "@ + suggestions_text(suggestions@),
    }
}

/// Portuguese rendering — stderr prose only, never the JSON `message`.
pub fn render_pt_br(d: &ErrorDetail) -> (r: String)
    ensures
        r@ == pt_br_text(*d),
    decreases *d,
{
    match d {
        ErrorDetail::Empty { subject } => {
            let mut s = String::new();
            push_str(&mut s, subject.pt_br());
            push_str(&mut s, " está ");
            push_str(&mut s, empty_adj_pt_br_exec(*subject));
            s
        },
        ErrorDetail::TooLong { subject, limit } => {
            let mut s = String::new();
            push_str(&mut s, subject.pt_br());
            push_str(&mut s, " excede ");
            push_dec(&mut s, *limit as u64);
            push_str(&mut s, " caracteres");
            s
        },
        ErrorDetail::Invalid { subject, value } => {
            let mut s = String::new();
            push_str(&mut s, subject.pt_br());
            push_str(&mut s, " ");
            push_str(&mut s, invalid_adj_pt_br_exec(*subject));
            push_str(&mut s, ": '");
            push_str(&mut s, value.as_str());
            push_str(&mut s, "'");
            s
        },
        ErrorDetail::ControlCharacters { subject } => {
            let mut s = String::new();
            push_str(&mut s, subject.pt_br());
            push_str(&mut s, " contém caracteres de controle ou invisíveis");
            s
        },
        ErrorDetail::NotVisibleAscii { subject } => {
            let mut s = String::new();
            push_str(&mut s, subject.pt_br());
            push_str(&mut s, " deve ser ASCII visível (sem caracteres de controle nem não-ASCII)");
            s
        },
        ErrorDetail::ContainsWhitespace { subject, value } => {
            let mut s = String::new();
            push_str(&mut s, subject.pt_br());
            push_str(&mut s, " contém espaço em branco: '");
            push_str(&mut s, value.as_str());
            push_str(&mut s, "'");
            s
        },
        ErrorDetail::MustBeAtLeastOneSecond { subject, .. } => {
            let mut s = String::new();
            push_str(&mut s, subject.pt_br());
            push_str(&mut s, " deve ser >= 1 segundo (recebido 0)");
            s
        },
        ErrorDetail::AboveHardMaximum { subject, hard_max, .. } => {
            let mut s = String::new();
            push_str(&mut s, subject.pt_br());
            push_str(&mut s, " excede o máximo absoluto (");
            push_dec(&mut s, *hard_max as u64);
            push_str(&mut s, ")");
            s
        },
        ErrorDetail::ItemPathNoSegments => {
            let mut s = String::new();
            push_str(&mut s, "caminho do item não tem segmentos");
            s
        },
        ErrorDetail::ItemPathMissingItemName => {
            let mut s = String::new();
            push_str(&mut s, "caminho do item sem nome do item");
            s
        },
        ErrorDetail::CrateRefMultipleAt => {
            let mut s = String::new();
            push_str(&mut s, "referência de crate deve conter no máximo um '@'");
            s
        },
        ErrorDetail::CrateRefEmptyName => {
            let mut s = String::new();
            push_str(&mut s, "nome da crate está vazio antes do '@'");
            s
        },
        ErrorDetail::CrateRefEmptyVersion => {
            let mut s = String::new();
            push_str(&mut s, "versão está vazia após o '@'");
            s
        },
        ErrorDetail::VersionBuildMetadata => {
            let mut s = String::new();
            push_str(&mut s, "metadados de build da versão não são aceitos");
            s
        },
        ErrorDetail::VersionVPrefix => {
            let mut s = String::new();
            push_str(&mut s, "a versão não deve começar com o prefixo 'v'");
            s
        },
        ErrorDetail::UnknownMatchMode { value } => {
            let mut s = String::new();
            push_str(&mut s, "modo de correspondência desconhecido '");
            push_str(&mut s, value.as_str());
            push_str(&mut s, "' (esperado exact|prefix|substring)");
            s
        },
        ErrorDetail::UnknownItemType { value } => {
            let mut s = String::new();
            push_str(&mut s, "tipo de item desconhecido '");
            push_str(&mut s, value.as_str());
            push_str(&mut s, "'");
            s
        },
        ErrorDetail::UnsupportedLang { tag } => {
            let mut s = String::new();
            push_str(&mut s, "idioma não suportado '");
            push_str(&mut s, tag.as_str());
            push_str(&mut s, "'; esperado en ou pt-BR");
            s
        },
        ErrorDetail::UnknownSchemaCommand { value } => {
            let mut s = String::new();
            push_str(&mut s, "comando de schema desconhecido '");
            push_str(&mut s, value.as_str());
            push_str(&mut s, "'");
            s
        },
        ErrorDetail::JsonFormatConflict => {
            let mut s = String::new();
            push_str(&mut s, "não é possível combinar --json com --format text ou --format markdown");
            s
        },
        ErrorDetail::ClapUsage { message } => {
            let mut s = String::new();
            push_str(&mut s, message.as_str());
            s
        },
        ErrorDetail::InvalidFilterExpression { expr, reason } => {
            let mut s = String::new();
            push_str(&mut s, "expressão --filter inválida `");
            push_str(&mut s, expr.as_str());
            push_str(&mut s, "`: ");
            push_str(&mut s, reason.as_str());
            s
        },
        ErrorDetail::ModuleFilterUnsupported => {
            let mut s = String::new();
            push_str(&mut s, "search-in-crate --item-type module não é suportado (all.html não tem índice de módulos); use get-item com kind module");
            s
        },
        ErrorDetail::AmbientTargetRefused { verb, target, target_flag, waiver_flag, effect } => {
            let mut s = String::new();
            push_str(&mut s, verb.as_str());
            push_str(&mut s, " ");
            push_str(&mut s, harm_pt_br_exec(*effect));
            push_str(&mut s, " um alvo de ambiente que nunca lhe foi dado: ");
            push_str(&mut s, target.as_str());
            push_str(&mut s, "; nomeie-o no argv com ");
            push_str(&mut s, target_flag.as_str());
            push_str(&mut s, " <DIR>, ou aceite-o com ");
            push_str(&mut s, waiver_flag.as_str());
            s
        },
        ErrorDetail::PageBelowOne => {
            let mut s = String::new();
            push_str(&mut s, "page deve ser >= 1 (recebido 0 ou ausente)");
            s
        },
        ErrorDetail::PerPageOutOfRange { max, got } => {
            let mut s = String::new();
            push_str(&mut s, "per_page deve estar em 1..=");
            push_dec(&mut s, *max as u64);
            push_str(&mut s, " (recebido ");
            push_dec(&mut s, *got as u64);
            push_str(&mut s, ")");
            s
        },
        ErrorDetail::OriginBadScheme { scheme } => {
            let mut s = String::new();
            push_str(&mut s, "o esquema da origem deve ser http ou https, recebido '");
            push_str(&mut s, scheme.as_str());
            push_str(&mut s, "'");
            s
        },
        ErrorDetail::OriginMissingHost { url } => {
            let mut s = String::new();
            push_str(&mut s, "a URL de origem deve incluir um host: '");
            push_str(&mut s, url.as_str());
            push_str(&mut s, "'");
            s
        },
        ErrorDetail::OriginNotAllowlisted { host, allowed } => {
            let mut s = String::new();
            push_str(&mut s, "host de origem fora da allowlist: '");
            push_str(&mut s, host.as_str());
            push_str(&mut s, "' (permitidos: ");
            push_str(&mut s, allowed.as_str());
            push_str(&mut s, "; loopback exige allow_loopback via CLI ou config.toml)");
            s
        },
        ErrorDetail::ItemPathSegmentCharset { segment } => {
            let mut s = String::new();
            push_str(&mut s, "segmento de caminho de item inválido '");
            push_str(&mut s, segment.as_str());
            push_str(&mut s, "' (use letras, dígitos, sublinhado ou hífen; hifens viram sublinhado; separe com :: ou /)");
            s
        },
        ErrorDetail::ConflictingVersions { from_ref, from_flag } => {
            let mut s = String::new();
            push_str(&mut s, "versões conflitantes: crate@");
            push_str(&mut s, from_ref.as_str());
            push_str(&mut s, " vs --crate-version ");
            push_str(&mut s, from_flag.as_str());
            s
        },
        ErrorDetail::ConfigDirUnresolved => {
            let mut s = String::new();
            push_str(&mut s, "não foi possível resolver o diretório de configuração (defina --config-dir ou garanta o XDG config home)");
            s
        },
        ErrorDetail::CacheDirUnresolved => {
            let mut s = String::new();
            push_str(&mut s, "não foi possível resolver o diretório de cache (defina --cache-dir ou garanta o XDG cache home)");
            s
        },
        ErrorDetail::ConfigTomlInvalid => {
            let mut s = String::new();
            push_str(&mut s, "config.toml inválido");
            s
        },
        ErrorDetail::ConfigTomlNotUtf8 => {
            let mut s = String::new();
            push_str(&mut s, "config.toml não é UTF-8 válido");
            s
        },
        ErrorDetail::ConfigTomlTooLarge { max_bytes } => {
            let mut s = String::new();
            push_str(&mut s, "config.toml excede o tamanho máximo (");
            push_dec(&mut s, *max_bytes as u64);
            push_str(&mut s, " bytes)");
            s
        },
        ErrorDetail::ConfigAlreadyExists { path } => {
            let mut s = String::new();
            push_str(&mut s, "a configuração já existe: ");
            push_str(&mut s, path.as_str());
            push_str(&mut s, " (use --force para sobrescrever)");
            s
        },
        ErrorDetail::UserAgentHeaderInvalid => {
            let mut s = String::new();
            push_str(&mut s, "cabeçalho user-agent inválido");
            s
        },
        ErrorDetail::HttpStatus { status, hint } => {
            let mut s = String::new();
            let t = http_status_pt_br_exec(*status, hint.as_str());
            push_str(&mut s, t.as_str());
            s
        },
        ErrorDetail::HostNotAllowlisted { host, stage } => {
            let mut s = String::new();
            push_str(&mut s, stage.pt_br());
            push_str(&mut s, " fora da allowlist: ");
            push_str(&mut s, host.as_str());
            s
        },
        ErrorDetail::HttpRequestFailed { url, .. } => {
            let mut s = String::new();
            push_str(&mut s, "a requisição HTTP falhou para ");
            push_str(&mut s, url.as_str());
            s
        },
        ErrorDetail::RedirectLimitExceeded => {
            let mut s = String::new();
            push_str(&mut s, "limite de redirecionamentos excedido");
            s
        },
        ErrorDetail::HttpClientBuild => {
            let mut s = String::new();
            push_str(&mut s, "falha ao construir o cliente HTTP");
            s
        },
        ErrorDetail::BodyRead => {
            let mut s = String::new();
            push_str(&mut s, "falha ao ler o corpo da resposta");
            s
        },
        ErrorDetail::BodyOverBudget { max_bytes } => {
            let mut s = String::new();
            push_str(&mut s, "corpo da resposta excede max_body_bytes (");
            push_dec(&mut s, *max_bytes as u64);
            push_str(&mut s, ")");
            s
        },
        ErrorDetail::CachedBodyOverBudget { max_bytes } => {
            let mut s = String::new();
            push_str(&mut s, "corpo em cache excede max_body_bytes (");
            push_dec(&mut s, *max_bytes as u64);
            push_str(&mut s, ")");
            s
        },
        ErrorDetail::BodyReserveFailed { bytes } => {
            let mut s = String::new();
            push_str(&mut s, "falha ao reservar ");
            push_dec(&mut s, *bytes as u64);
            push_str(&mut s, " bytes para o corpo da resposta");
            s
        },
        ErrorDetail::BodyNotUtf8 => {
            let mut s = String::new();
            push_str(&mut s, "corpo da resposta não é UTF-8 válido");
            s
        },
        ErrorDetail::UnexpectedContentType { expected, got } => {
            let mut s = String::new();
            push_str(&mut s, "Content-Type inesperado para resposta ");
            push_str(&mut s, expected.label());
            push_str(&mut s, ": ");
            push_str(&mut s, got.as_str());
            s
        },
        ErrorDetail::OutputOverBudget => {
            let mut s = String::new();
            push_str(&mut s, "corpo grande demais");
            s
        },
        ErrorDetail::HtmlToMarkdown => {
            let mut s = String::new();
            push_str(&mut s, "falha ao converter HTML para Markdown");
            s
        },
        ErrorDetail::CratesIoJson => {
            let mut s = String::new();
            push_str(&mut s, "falha ao parsear o JSON do crates.io");
            s
        },
        ErrorDetail::AssocParentPageNotFound => {
            let mut s = String::new();
            push_str(&mut s, "página do tipo pai não encontrada");
            s
        },
        ErrorDetail::AssocAnchorMissing { anchors } => {
            let mut s = String::new();
            push_str(&mut s, "âncora de item associado não encontrada: ");
            push_str(&mut s, anchors.as_str());
            s
        },
        ErrorDetail::AssocAnchorEmpty { anchor_id } => {
            let mut s = String::new();
            push_str(&mut s, "âncora de item associado vazia: ");
            push_str(&mut s, anchor_id.as_str());
            s
        },
        ErrorDetail::MemberKindNeedsParent { kind, member, parent_kinds } => {
            let mut s = String::new();
            push_str(&mut s, *kind);
            push_str(&mut s, " não tem página própria: qualifique como Pai::");
            push_str(&mut s, member.as_str());
            push_str(&mut s, " (kinds de pai: ");
            push_str(&mut s, parent_kinds.as_str());
            push_str(&mut s, ")");
            s
        },
        ErrorDetail::HitJoinFailed => {
            let mut s = String::new();
            push_str(&mut s, "falha ao resolver o href (fora da origem ou inválido contra a base source_url)");
            s
        },
        ErrorDetail::HitBaseInvalid => {
            let mut s = String::new();
            push_str(&mut s, "source_url inválida como base de resolução");
            s
        },
        ErrorDetail::Interrupted => {
            let mut s = String::new();
            push_str(&mut s, "interrompido por SIGINT");
            s
        },
        ErrorDetail::Terminated => {
            let mut s = String::new();
            push_str(&mut s, "encerrado por SIGTERM");
            s
        },
        ErrorDetail::BrokenPipe => {
            let mut s = String::new();
            push_str(&mut s, "pipe quebrado ao escrever em stdout");
            s
        },
        ErrorDetail::WallClockTimeout { secs } => {
            let mut s = String::new();
            push_str(&mut s, "tempo esgotado após ");
            push_dec(&mut s, *secs as u64);
            push_str(&mut s, "s");
            s
        },
        ErrorDetail::Io { op, path, cause } => {
            let mut s = String::new();
            push_str(&mut s, "falha ao ");
            push_str(&mut s, op.pt_br());
            let t = io_path_part_exec(path);
            push_str(&mut s, t.as_str());
            push_str(&mut s, io_hint_pt_br_exec(*cause));
            s
        },
        ErrorDetail::Internal { op } => {
            let mut s = String::new();
            push_str(&mut s, op.pt_br());
            s
        },
        ErrorDetail::Message { text, .. } => {
            let mut s = String::new();
            let t = translate_error_pt_br(text.as_str());
            push_str(&mut s, t.as_str());
            s
        },
        ErrorDetail::WithSuggestions { base, suggestions } => {
            let mut s = String::new();
            let t = render_pt_br(base);
            push_str(&mut s, t.as_str());
            push_str(&mut s, "; sugestões: ");
            let t = join_suggestions(suggestions.as_slice());
            push_str(&mut s, t.as_str());
            s
        },
    }
}

} // verus!
