use cargo_pros::image::binary_image_path;

#[test]
fn image_replaces_the_extension() {
    assert_eq!(binary_image_path("target/debug/robot.elf"), "target/debug/robot.bin");
}

#[test]
fn image_of_path_without_extension_gets_one() {
    assert_eq!(binary_image_path("target/debug/robot"), "target/debug/robot.bin");
}

#[test]
fn image_replaces_only_the_last_extension() {
    assert_eq!(binary_image_path("robot.tar.gz"), "robot.tar.bin");
}

#[test]
fn image_of_an_image_is_itself() {
    assert_eq!(binary_image_path("out/robot.bin"), "out/robot.bin");
}

#[test]
fn image_keeps_dots_in_directories() {
    assert_eq!(binary_image_path("build.d/robot"), "build.d/robot.bin");
}

#[test]
fn image_of_hidden_file_keeps_its_name() {
    assert_eq!(binary_image_path(".robot"), ".robot.bin");
}

#[test]
fn image_of_path_without_file_name_is_the_path() {
    assert_eq!(binary_image_path(""), "");
    assert_eq!(binary_image_path(".."), "..");
}
