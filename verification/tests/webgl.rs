use crystal::TextureFilter;
use crystal::webgl::Error;
use crystal::webgl::filter_codes;
use crystal::webgl::index_bytes;
use crystal::webgl::program_outcome;
use crystal::webgl::glsl_version;
use crystal::webgl::shader_outcome;

const GL_NEAREST: i32 = 9728;
const GL_LINEAR: i32 = 9729;
const GL_LINEAR_MIPMAP_LINEAR: i32 = 9987;

#[test]
fn missing_shader_object_is_an_error() {
    let r = shader_outcome(None, None);
    match r {
        Err(Error::Message(m)) => assert_eq!(m, "failed to create shader"),
        _ => panic!("expected the creation error"),
    }
}

#[test]
fn missing_shader_object_error_ignores_the_log() {
    let r = shader_outcome(None, Some("warning: unused varying".to_string()));
    match r {
        Err(Error::Message(m)) => assert_eq!(m, "failed to create shader"),
        _ => panic!("expected the creation error"),
    }
}

#[test]
fn missing_program_object_is_an_error() {
    let r = program_outcome(None, None);
    match r {
        Err(Error::Message(m)) => assert_eq!(m, "creating shader program"),
        _ => panic!("expected the creation error"),
    }
}

#[test]
fn index_bytes_are_little_endian() {
    assert_eq!(index_bytes(&[0x1234, 0xabcd]), vec![0x34, 0x12, 0xcd, 0xab]);
}

#[test]
fn index_bytes_of_nothing_are_nothing() {
    assert_eq!(index_bytes(&[]), Vec::<u8>::new());
}

#[test]
fn index_bytes_keep_order() {
    assert_eq!(index_bytes(&[0, 1, 256]), vec![0, 0, 1, 0, 0, 1]);
}

#[test]
fn nearest_and_linear_filters_ignore_the_size() {
    assert_eq!(filter_codes(TextureFilter::Nearest, 300, 7), (GL_NEAREST, GL_NEAREST, false));
    assert_eq!(filter_codes(TextureFilter::Linear, 256, 256), (GL_LINEAR, GL_LINEAR, false));
}

#[test]
fn mipmaps_need_power_of_two_sides() {
    assert_eq!(
        filter_codes(TextureFilter::MipMap, 256, 128),
        (GL_LINEAR_MIPMAP_LINEAR, GL_LINEAR_MIPMAP_LINEAR, true)
    );
    assert_eq!(filter_codes(TextureFilter::MipMap, 300, 128), (GL_LINEAR, GL_LINEAR, false));
    assert_eq!(filter_codes(TextureFilter::MipMap, 256, 100), (GL_LINEAR, GL_LINEAR, false));
    assert_eq!(filter_codes(TextureFilter::MipMap, 0, 128), (GL_LINEAR, GL_LINEAR, false));
    assert_eq!(filter_codes(TextureFilter::MipMap, 1, 1), (
        GL_LINEAR_MIPMAP_LINEAR,
        GL_LINEAR_MIPMAP_LINEAR,
        true,
    ));
}

#[test]
fn error_text_returns_the_stored_description() {
    assert_eq!(Error::Message("went wrong".to_string()).text(), "went wrong");
    assert_eq!(Error::UniformNotFound("transform".to_string()).text(), "transform");
    assert_eq!(Error::TextureNotFound("diffuse".to_string()).text(), "diffuse");
}

#[test]
fn shader_sources_start_with_the_es_version() {
    assert_eq!(glsl_version(), "#version 300 es");
}
