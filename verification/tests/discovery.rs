use plows_gpu::dynlib;

#[test]
fn candidate_lists_are_non_empty() {
    assert!(!dynlib::nvml_candidates().is_empty());
    assert!(!dynlib::amdsmi_candidates().is_empty());
    assert!(!dynlib::level_zero_candidates().is_empty());
}
