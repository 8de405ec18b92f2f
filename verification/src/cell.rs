mod cell_opt_ref_mut;

pub use cell_opt_ref_mut::CellOptRefMut;
