pub mod laws;
pub mod order;
pub mod router;
pub mod selection;
pub mod session;
pub mod vocab;

pub use laws::advance_times;
pub use laws::move_times;
pub use laws::tick_times;
pub use order::is_permutation_of;
pub use order::shuffled_order;
pub use router::Action;
pub use router::App;
pub use router::Event;
pub use router::Mode;
pub use selection::Focus;
pub use selection::Selection;
pub use session::LearnSession;
pub use session::SessionModel;
pub use session::WordProgress;
pub use session::advance_model;
pub use session::elapsed_since;
pub use session::help_model;
pub use session::initial_model;
pub use session::session_inv;
pub use session::tick_model;
pub use vocab::Category;
pub use vocab::Word;
