//! Deterministic reconstruction of the pseudo-random sequence and payout
//! logic of a set of casino mini-games, together with a depth-bounded
//! search for play sequences that drive a bankroll to a target value.

pub mod bandit;
pub mod cursor;
pub mod engine;
pub mod poker;
pub mod trump;

pub use bandit::fountains_of_fortune::BanditFofPrize;
pub use bandit::fountains_of_fortune::bandit_fof_play;
pub use bandit::magnicent_sevens::BanditMsPrize;
pub use bandit::magnicent_sevens::bandit_ms_play;
pub use bandit::riches_of_rome::BanditRorPrize;
pub use bandit::riches_of_rome::bandit_ror_play;
pub use cursor::Rng;
pub use engine::ConcreteMove;
pub use engine::MOVE_GAIN_CAP;
pub use engine::Move;
pub use engine::State;
pub use engine::UndoInfo;
pub use engine::continuity_flags;
pub use engine::rng_index_distance;
pub use engine::solve;
pub use engine::solve_leaf;
pub use poker::play_poker;
pub use trump::Card;
pub use trump::CardRank;
pub use trump::CardSuit;
pub use trump::Deck;
