//! Configuration of the task-board service.

use vstd::prelude::*;

verus! {

/// Where the board service lives and whether it may be used.
pub struct BoardConfig {
    pub enabled: bool,
    /// Base URL of the board API, without a trailing path.
    pub api_url: String,
    /// Bearer token sent with every request.
    pub api_key: String,
}

/// The board settings as plain values.
pub struct BoardConfigView {
    pub enabled: bool,
    pub api_url: Seq<char>,
    pub api_key: Seq<char>,
}

impl View for BoardConfig {
    type V = BoardConfigView;

    open spec fn view(&self) -> BoardConfigView {
        BoardConfigView { enabled: self.enabled, api_url: self.api_url@, api_key: self.api_key@ }
    }
}

/// The configuration the board tools read.
pub struct Config {
    pub board: BoardConfig,
}

impl View for Config {
    type V = BoardConfigView;

    open spec fn view(&self) -> BoardConfigView {
        self.board@
    }
}

} // verus!
