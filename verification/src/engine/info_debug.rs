use vstd::prelude::*;

verus! {

/// Marker for the text that shows the frame rate and the frame time.
pub struct FpsFrametimeDebugTextWriter;

impl FpsFrametimeDebugTextWriter {
    /// The frame rate and frame time to show, when both readings exist;
    /// the text stays as it is otherwise.
    pub fn readings_to_show<T>(fps: Option<T>, frame_time_ms: Option<T>) -> (shown: Option<(T, T)>)
        ensures
            shown is Some <==> (fps is Some && frame_time_ms is Some),
            shown matches Some(pair) ==> fps == Some(pair.0) && frame_time_ms == Some(pair.1),
    {
        match (fps, frame_time_ms) {
            (Some(f), Some(ms)) => Some((f, ms)),
            _ => None,
        }
    }
}

} // verus!
