//! Error kinds, exit codes and the typed failure catalogue.
//!
//! | Kind | Exit | Retryable |
//! |------|------|-----------|
//! | usage | 64 | no |
//! | invalid_input | 65 | no |
//! | not_found | 66 | no |
//! | rate_limited / unavailable | 69 | yes |
//! | network | 74 | yes |
//! | budget | 74 | no |
//! | io | 74 | by cause |
//! | timeout | 124 | yes |
//! | parse | 65 | no |
//! | config | 78 | no |
//! | internal | 70 | no |
//! | interrupted (SIGINT) | 130 | no |
//! | terminated (SIGTERM) | 143 | no |
//! | broken_pipe (stdout EPIPE) | 141 | no |

pub mod app_error;
pub mod classify;
pub mod detail;
pub mod kind;
pub mod laws;
pub mod render_en;
pub mod render_pt_br;
pub mod suggestion;
pub mod vocab;

pub use app_error::{io_at, AppError, AppResult};
pub use detail::ErrorDetail;
pub use kind::{
    ErrorKind, EXIT_BROKEN_PIPE, EXIT_CONFIG, EXIT_INTERNAL, EXIT_INTERRUPTED, EXIT_INVALID_INPUT,
    EXIT_IO, EXIT_NETWORK, EXIT_NOT_FOUND, EXIT_TERMINATED, EXIT_TIMEOUT, EXIT_UNAVAILABLE,
    EXIT_USAGE,
};
pub use suggestion::Suggestion;
pub use vocab::{
    AllowlistStage, ContentKind, DestructiveEffect, GenderPtBr, InternalOp, IoCause, IoOp,
    OsErrorKind, Subject, ValueSource,
};
