pub mod slice_samples;
