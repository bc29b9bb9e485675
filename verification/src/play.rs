//! Packet data records of the play state, grouped by direction.

pub mod clientbound;

pub mod serverbound;
