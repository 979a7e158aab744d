use ffmpeg_cli::string_utils::{
    add_quotes_if_whitespace_present, change_file_extension, find_file_extension,
    last_index_of_char, wrap_with_quotes_if_whitespace, NO_EXTENSION_FOUND,
};

#[test]
fn should_find_last_index_of_char() {
    let s = "aaaaa.bbb.c";
    let idx = last_index_of_char(s, '.').unwrap();
    assert_eq!(idx, 9);

    let idx = last_index_of_char(s, '?');
    assert!(idx.is_none());
}

#[test]
fn should_find_extension_of_the_file() {
    let ext = find_file_extension("aaaa/bbb/cc/video.mp4").unwrap();
    assert_eq!(ext, ".mp4");

    let ext = find_file_extension("abcd");
    assert!(ext.is_err());
}

#[test]
fn should_change_extension() {
    let new_path = change_file_extension("aaa/bbb/cc/video.mp4", ".avi").unwrap();
    assert_eq!(new_path, "aaa/bbb/cc/video.avi");
}

#[test]
fn should_clean_input_and_output_whitespaces() {
    let input = "/some/path with whitespaces/file name.mp4";
    let result = wrap_with_quotes_if_whitespace(input);
    assert_eq!(result, format!("\"{}\"", input));

    let input = "some/path/no_whitespace/file.mp4";
    let result = wrap_with_quotes_if_whitespace(input);
    assert_eq!(result, input);
}

#[test]
fn last_index_counts_characters_not_bytes() {
    assert_eq!(Some(5), last_index_of_char("vidéo.mp4", '.'));
    assert_eq!(Some(0), last_index_of_char(".", '.'));
    assert_eq!(Some(2), last_index_of_char("a..", '.'));
    assert_eq!(None, last_index_of_char("", '.'));
    assert_eq!(Some(4), last_index_of_char("ééééé", 'é'));
}

#[test]
fn extension_starts_at_the_last_dot() {
    assert_eq!(Ok(".gz".to_owned()), find_file_extension("archive.tar.gz"));
    assert_eq!(Ok(".".to_owned()), find_file_extension("trailing."));
    assert_eq!(Ok(".hidden".to_owned()), find_file_extension(".hidden"));
    assert_eq!(Ok(".mp4".to_owned()), find_file_extension("vidéo ünï.mp4"));
    assert_eq!(Ok(".d/file".to_owned()), find_file_extension("/a.d/file"));
    assert_eq!(Err(NO_EXTENSION_FOUND), find_file_extension(""));
    assert_eq!(Err("No extension found."), find_file_extension("/a/b/c"));
}

#[test]
fn only_the_extension_is_replaced() {
    assert_eq!(
        Ok("/videos.mp4/clip.avi".to_owned()),
        change_file_extension("/videos.mp4/clip.mp4", ".avi")
    );
    assert_eq!(
        Ok("/a/b/in_compressed.mp4".to_owned()),
        change_file_extension("/a/b/in.avi", "_compressed.mp4")
    );
    assert_eq!(Ok("a".to_owned()), change_file_extension("a.b", ""));
    assert_eq!(Ok("été.mkv".to_owned()), change_file_extension("été.mov", ".mkv"));
    assert_eq!(
        Err("No extension found."),
        change_file_extension("no_extension", ".avi")
    );
}

#[test]
fn only_a_space_calls_for_quotes() {
    assert_eq!("", wrap_with_quotes_if_whitespace(""));
    assert_eq!("\" \"", wrap_with_quotes_if_whitespace(" "));
    assert_eq!("a\tb", wrap_with_quotes_if_whitespace("a\tb"));
    assert_eq!("\"a b\"", wrap_with_quotes_if_whitespace("a b"));
    assert_eq!("\"é è\"", wrap_with_quotes_if_whitespace("é è"));
}

#[test]
fn input_and_output_are_quoted_each_on_its_own() {
    let (input, output) = add_quotes_if_whitespace_present("/a b/in.mp4", "/c/out.mp4");
    assert_eq!("\"/a b/in.mp4\"", input);
    assert_eq!("/c/out.mp4", output);
    let (input, output) = add_quotes_if_whitespace_present("in.mp4", "out file.mp4");
    assert_eq!("in.mp4", input);
    assert_eq!("\"out file.mp4\"", output);
}
