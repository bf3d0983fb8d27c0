//! Interactive session engine for a pod-inspection dashboard.
//!
//! The library holds the verified core: the scroll/viewport model, the
//! text-buffer line accounting, the pod-resolution algorithm over a raw
//! cluster listing, the listing presentation transforms, and the modal
//! session state machine that turns keyboard events into state transitions
//! and pending provider actions.  All terminal I/O, cluster-command
//! invocation and rendering live outside the library.

pub mod listing;
pub mod resolver;
pub mod session;
pub mod text;
pub mod viewport;

pub use resolver::PodIdentifier;
pub use resolver::ResolutionError;
pub use session::Directive;
pub use session::Key;
pub use session::Mode;
pub use session::PendingActions;
pub use session::ProviderError;
pub use session::ScrollReset;
pub use session::SessionError;
pub use session::SessionState;
pub use text::TextBuffer;
pub use viewport::ScrollUnit;
pub use viewport::ViewportState;
pub use viewport::PAGE_LINES;
