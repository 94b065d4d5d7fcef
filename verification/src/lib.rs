pub mod auth;
pub mod config;
pub mod consts;
pub mod credential;
pub mod dom;
pub mod error;
pub mod extract;
pub mod location;
pub mod poll;
pub mod record;
pub mod search;
pub mod session;
pub mod surface;
pub mod theorems;

pub use auth::{
    handle_signin, handle_token, token_landed, token_reply, Login, LoginStage, LoginStep, LoginStepView, LoginView,
};
pub use config::{Config, ConfigView};
pub use credential::{AuthType, AuthTypeView, Handshake, HandshakeView};
pub use error::{Error, ErrorView, UrlFailure};
pub use extract::{ExtractStage, ExtractStep, ExtractStepView, Extractor, ExtractorView};
pub use poll::{PollStage, PollStep, PollStepView, Poller, PollerView};
pub use record::{SearchResult, SearchResultView};
pub use search::{Phase, PhaseView, Search, SearchView, Step, StepView};
pub use session::{ends_event_loop, Kagi, KagiView, LaunchOptions};
pub use surface::{Command, CommandView, Handle, Reply, ReplyView, Selector, HREF};
