//! A Hough-transform line-detection engine.
//!
//! Given a greyscale edge image, the library builds a parameter-space
//! accumulator ("Hough space") that tallies, for every bright pixel, a vote
//! for each of the 180 candidate lines through it, indexed by the angle of
//! the line's normal and its signed distance from the origin.  Strong
//! accumulator cells are then inverted back into line candidates and into
//! drawable segments clipped to the image's left and right edges.
//!
//! All geometry is carried out in fixed-point integer arithmetic over a
//! table of scaled cosine and sine values, so that every step of the
//! pipeline has an exact, machine-checked contract.  Reading image files,
//! rasterizing segments and writing the results out are left to the caller.

mod accumulator;
mod geometry;
mod image;
mod laws;
mod reconstruct;
mod render;
mod trig;

pub use accumulator::Accumulator;
pub use accumulator::build_post;
pub use accumulator::create_lines;
pub use accumulator::hough_transform;
pub use accumulator::lemma_flat_index_bounds;
pub use accumulator::lemma_flat_index_injective;
pub use accumulator::lemma_votes_upto_bounds;
pub use accumulator::qualifies;
pub use accumulator::vote_of;
pub use accumulator::votes_upto;
pub use geometry::ANGLE_RESOLUTION;
pub use geometry::MAX_DIMENSION;
pub use geometry::MAX_RHO_BOUND;
pub use geometry::calculate_max_rho_value;
pub use geometry::cell_for;
pub use geometry::is_max_rho;
pub use geometry::lemma_max_rho_margin;
pub use geometry::lemma_max_rho_unique;
pub use geometry::lemma_scale_round_trip;
pub use geometry::lemma_scaled_rho_in_range;
pub use geometry::rho_q_spec;
pub use geometry::scale_rho;
pub use geometry::scale_rho_spec;
pub use geometry::unscale_rho;
pub use geometry::unscale_rho_spec;
pub use image::GreyImage;
pub use laws::cells_total;
pub use laws::grid_total;
pub use laws::lemma_pipeline_deterministic;
pub use laws::lemma_row_vote_conservation;
pub use laws::lemma_vote_conservation;
pub use laws::qualifying_upto;
pub use laws::row_total;
pub use laws::total_votes;
pub use reconstruct::LineCandidate;
pub use reconstruct::Segment;
pub use reconstruct::abs_val;
pub use reconstruct::lemma_recon_elements;
pub use reconstruct::lemma_threshold_boundary;
pub use reconstruct::line_segment_endpoints;
pub use reconstruct::recon_upto;
pub use reconstruct::reconstruct;
pub use reconstruct::segment_coords;
pub use reconstruct::transform_to_image_space;
pub use render::grey_of;
pub use render::lemma_max_upto_dominates;
pub use render::max_upto;
pub use render::max_vote;
pub use render::render_houghspace;
pub use trig::TrigTable;
pub use trig::lemma_standard_entries_ok;
pub use trig::standard_cos;
pub use trig::standard_cos_at;
pub use trig::standard_entry_ok;
pub use trig::standard_sin;
pub use trig::standard_sin_at;
pub use trig::TRIG_SCALE;
pub use trig::trig_entries_ok;
