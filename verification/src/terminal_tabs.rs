//! What a terminal library asks of whoever keeps its tabs.
use std::sync::Arc;
use vstd::prelude::*;

verus! {

/// The tabs, as a terminal library sees them: child processes `P`, each with the terminal `T`
/// that shows it.
pub trait TabManager<P, T> {
    fn get_all(&self) -> &Vec<(P, Arc<T>)>;

    fn current_pty(&self) -> &P;

    fn current_term(&self) -> &Arc<T>;

    fn create_tab(&self);
}

} // verus!
