//! Parallel collectors for comparing items: the maximum and the minimum.
mod max;
mod min;

pub use max::{lemma_max_opt_assoc, lemma_max_opt_comm, lemma_par_max_cycle, lemma_seq_max_is_max, lemma_seq_max_split, max_opt, seq_max, MaxCombiner, MaxConsumer, MaxSerial, ParMax};
pub use min::{lemma_min_opt_assoc, lemma_min_opt_comm, lemma_par_min_cycle, lemma_seq_min_is_min, lemma_seq_min_split, min_opt, seq_min, MinCombiner, MinConsumer, MinSerial, ParMin};
