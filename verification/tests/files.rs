//! The walker's predicate: which directory entries reach the pipeline.

use video_converter::files::should_process;

#[test]
fn hidden_files_are_skipped() {
    assert!(!should_process(".hidden.mkv", Some("mkv")));
    assert!(!should_process(".bashrc", None));
}

#[test]
fn files_without_extension_are_skipped() {
    assert!(!should_process("README", None));
}

#[test]
fn exempt_extensions_are_skipped() {
    for ext in ["gif", "jpg", "md", "nfo", "png", "py", "rar", "sfv", "srr", "txt"] {
        let name = format!("file.{}", ext);
        assert!(!should_process(&name, Some(ext)), "extension {}", ext);
    }
}

#[test]
fn numbered_archive_parts_are_skipped() {
    // split-archive extensions: 'r' followed by digits
    assert!(!should_process("movie.r00", Some("r00")));
    assert!(!should_process("movie.r17", Some("r17")));
}

#[test]
fn media_files_are_processed() {
    assert!(should_process("movie.mkv", Some("mkv")));
    assert!(should_process("movie.avi", Some("avi")));
    assert!(should_process("movie.mp4", Some("mp4")));
    // 'r' without a following digit is not a numbered part
    assert!(should_process("movie.rm", Some("rm")));
}
