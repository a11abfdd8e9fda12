use sandbox_pipeline::confinement::get_security_args;
use sandbox_pipeline::invocation::{
    build_entry_command, build_run_args, build_stage_args, Stage, IMAGE_NAME,
};

fn strings(items: &[&str]) -> Vec<String> {
    items.iter().map(|s| s.to_string()).collect()
}

fn expected_stage_args(module: &str, ocr: bool) -> Vec<String> {
    let mut args = strings(&[
        "run",
        "--log-driver",
        "none",
        "--security-opt",
        "no-new-privileges",
        "--cap-drop",
        "all",
        "--cap-add",
        "SYS_CHROOT",
        "--security-opt",
        "label=type:container_engine_t",
        "--network=none",
        "-u",
        "dangerzone",
        "--rm",
        "-i",
        "ghcr.io/freedomofpress/dangerzone/v1",
        "/usr/bin/python3",
        "-m",
        module,
    ]);
    if ocr {
        args.push("--ocr".to_string());
    }
    args
}

#[test]
fn image_reference_is_fixed() {
    assert_eq!(IMAGE_NAME, "ghcr.io/freedomofpress/dangerzone/v1");
}

#[test]
fn stage_numbers() {
    assert_eq!(Stage::DocToPixels.number(), 1);
    assert_eq!(Stage::PixelsToPdf.number(), 2);
}

#[test]
fn first_stage_command_line() {
    assert_eq!(
        build_stage_args(Stage::DocToPixels, false),
        expected_stage_args("dangerzone.conversion.doc_to_pixels", false)
    );
}

#[test]
fn second_stage_command_line() {
    assert_eq!(
        build_stage_args(Stage::PixelsToPdf, false),
        expected_stage_args("dangerzone.conversion.pixels_to_pdf", false)
    );
}

#[test]
fn second_stage_command_line_with_ocr() {
    assert_eq!(
        build_stage_args(Stage::PixelsToPdf, true),
        expected_stage_args("dangerzone.conversion.pixels_to_pdf", true)
    );
}

#[test]
fn first_stage_command_line_ignores_ocr() {
    assert_eq!(
        build_stage_args(Stage::DocToPixels, true),
        build_stage_args(Stage::DocToPixels, false)
    );
}

#[test]
fn entry_commands() {
    assert_eq!(
        build_entry_command(Stage::DocToPixels, false),
        strings(&["/usr/bin/python3", "-m", "dangerzone.conversion.doc_to_pixels"])
    );
    assert_eq!(
        build_entry_command(Stage::DocToPixels, true),
        strings(&["/usr/bin/python3", "-m", "dangerzone.conversion.doc_to_pixels"])
    );
    assert_eq!(
        build_entry_command(Stage::PixelsToPdf, false),
        strings(&["/usr/bin/python3", "-m", "dangerzone.conversion.pixels_to_pdf"])
    );
    assert_eq!(
        build_entry_command(Stage::PixelsToPdf, true),
        strings(&["/usr/bin/python3", "-m", "dangerzone.conversion.pixels_to_pdf", "--ocr"])
    );
}

#[test]
fn run_args_wrap_image_and_entry() {
    let args = build_run_args("example/image:1", strings(&["/bin/true", "x"]));
    let profile = get_security_args();
    assert_eq!(args.len(), 1 + profile.len() + 3 + 2);
    assert_eq!(args[0], "run");
    assert_eq!(&args[1..1 + profile.len()], profile.as_slice());
    assert_eq!(&args[14..], strings(&["--rm", "-i", "example/image:1", "/bin/true", "x"]).as_slice());
}

#[test]
fn run_args_with_empty_entry() {
    let args = build_run_args("img", Vec::new());
    assert_eq!(args.len(), 17);
    assert_eq!(args[16], "img");
}

#[test]
fn both_stages_share_the_runtime_facing_arguments() {
    for ocr in [false, true] {
        let first = build_stage_args(Stage::DocToPixels, ocr);
        let second = build_stage_args(Stage::PixelsToPdf, ocr);
        assert_eq!(&first[..17], &second[..17]);
        assert_eq!(&first[1..14], get_security_args().as_slice());
        assert_eq!(&second[1..14], get_security_args().as_slice());
    }
}

#[test]
fn every_command_line_disables_network_exactly_once() {
    for stage in [Stage::DocToPixels, Stage::PixelsToPdf] {
        for ocr in [false, true] {
            let args = build_stage_args(stage, ocr);
            assert_eq!(args[11], "--network=none");
            let naming: Vec<&String> = args.iter().filter(|a| a.starts_with("--net")).collect();
            assert_eq!(naming, vec!["--network=none"]);
        }
    }
}

#[test]
fn every_command_line_is_ephemeral_and_interactive() {
    for stage in [Stage::DocToPixels, Stage::PixelsToPdf] {
        for ocr in [false, true] {
            let args = build_stage_args(stage, ocr);
            assert_eq!(args[14], "--rm");
            assert_eq!(args[15], "-i");
            assert_eq!(args[16], IMAGE_NAME);
        }
    }
}
