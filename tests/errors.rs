use ocl::decimal::append_decimal;
use ocl::{Error, Status};

const BANNER_HEAD: &str =
    "\n\n################################ OPENCL ERROR ############################### \n\nError executing function: ";
const BANNER_TAIL: &str =
    "  \n\n############################################################################# \n";

#[test]
fn translate_out_of_resources() {
    let r = Error::err_status::<()>(-5, "clEnqueueReadBuffer", "buffer_size=1024");
    let e = r.unwrap_err();
    let d = e.description();
    assert!(d.contains("clEnqueueReadBuffer(\"buffer_size=1024\")"));
    assert!(d.contains("OUT_OF_RESOURCES (-5)"));
    assert!(d.contains("/clEnqueueReadBuffer.html#errors"));
    match e {
        Error::Status { status, status_string, fn_name, fn_info, .. } => {
            assert_eq!(status, Status::CL_OUT_OF_RESOURCES);
            assert_eq!(status_string, "CL_OUT_OF_RESOURCES");
            assert_eq!(fn_name, "clEnqueueReadBuffer");
            assert_eq!(fn_info, "buffer_size=1024");
        }
        _ => panic!("expected a status error"),
    }
}

#[test]
fn translate_renders_whole_diagnostic() {
    let e = Error::err_status::<u32>(-5, "clEnqueueReadBuffer", "buffer_size=1024").unwrap_err();
    let expected = format!(
        "{}clEnqueueReadBuffer(\"buffer_size=1024\")  \n\nStatus error code: CL_OUT_OF_RESOURCES (-5)  \n\nPlease visit the following url for more information: \n\nhttps://www.khronos.org/registry/cl/sdk/1.2/docs/man/xhtml/clEnqueueReadBuffer.html#errors{}",
        BANNER_HEAD, BANNER_TAIL
    );
    assert_eq!(e.description(), expected);
}

#[test]
fn translate_without_arguments_omits_parentheses() {
    let e = Error::err_status::<()>(-1001, "clGetPlatformIDs", "").unwrap_err();
    let d = e.description();
    assert!(d.contains("Error executing function: clGetPlatformIDs  \n"));
    assert!(d.contains("CL_PLATFORM_NOT_FOUND_KHR (-1001)"));
    assert!(!d.contains("clGetPlatformIDs(\""));
}

#[test]
fn translate_success() {
    let r = Error::err_status::<()>(0, "clFinish", "");
    assert!(matches!(r, Ok(())));
    let n = Error::err_status::<i64>(0, "clFinish", "queue");
    assert!(matches!(n, Ok(0)));
    let s = Error::err_status::<String>(0, "clFinish", "queue");
    assert_eq!(s.unwrap(), "");
}

#[test]
fn translate_every_known_failure() {
    let mut seen: u32 = 0;
    for code in -1001i32..=0 {
        if let Some(status) = Status::from_i32(code) {
            seen += 1;
            assert_eq!(status.as_i32(), code);
            let r = Error::err_status::<()>(code, "clBuildProgram", "opts");
            if code == 0 {
                assert!(r.is_ok());
                continue;
            }
            let e = r.unwrap_err();
            assert_eq!(e.status(), Some(status));
            let d = e.description();
            assert!(d.contains("clBuildProgram"));
            assert!(d.contains(status.name()));
            assert!(d.contains(&format!("{} ({})", status.name(), code)));
            assert!(d.contains("https://www.khronos.org/registry/cl/sdk/1.2/docs/man/xhtml/clBuildProgram.html#errors"));
            match e {
                Error::Status { status_string, .. } => assert_eq!(status_string, status.name()),
                _ => panic!("expected a status error"),
            }
        }
    }
    assert_eq!(seen, 62);
}

#[test]
fn unknown_codes_have_no_status() {
    assert_eq!(Status::from_i32(1), None);
    assert_eq!(Status::from_i32(-20), None);
    assert_eq!(Status::from_i32(-1000), None);
    assert_eq!(Status::from_i32(i32::MIN), None);
    assert_eq!(Status::from_i32(-30), Some(Status::CL_INVALID_VALUE));
    assert_eq!(Status::CL_INVALID_VALUE.name(), "CL_INVALID_VALUE");
}

#[test]
fn fail_then_prepend() {
    let r = Error::err::<i32>("bad shape");
    let mut e = r.unwrap_err();
    assert!(matches!(&e, Error::String(s) if s == "bad shape"));
    e.prepend("context: ");
    assert!(matches!(&e, Error::String(s) if s == "context: bad shape"));
    assert_eq!(e.description(), "context: bad shape");
}

#[test]
fn prepend_leaves_other_variants() {
    let mut c = Error::err_conversion::<()>("not a number").unwrap_err();
    c.prepend("context: ");
    assert!(matches!(&c, Error::Conversion(s) if s == "not a number"));
    assert_eq!(c.description(), "not a number");

    let mut d = Error::UnspecifiedDimensions;
    let before = d.description();
    d.prepend("context: ");
    assert_eq!(d.description(), before);

    let mut s = Error::err_status::<()>(-36, "clFinish", "").unwrap_err();
    let before = s.description();
    s.prepend("context: ");
    assert_eq!(s.description(), before);
    assert_eq!(s.status(), Some(Status::CL_INVALID_COMMAND_QUEUE));
}

#[test]
fn prepend_empty_text() {
    let mut e = Error::new("x");
    e.prepend("");
    assert!(matches!(&e, Error::String(s) if s == "x"));
    let mut f = Error::new("");
    f.prepend("only");
    assert_eq!(f.description(), "only");
}

#[test]
fn conversion_error() {
    let r = Error::err_conversion::<u8>("cannot convert");
    assert!(matches!(r, Err(Error::Conversion(ref s)) if s == "cannot convert"));
}

#[test]
fn status_of_other_variants() {
    assert_eq!(Error::new("m").status(), None);
    assert_eq!(Error::err_conversion::<()>("c").unwrap_err().status(), None);
    assert_eq!(Error::UnspecifiedDimensions.status(), None);
    let io = std::io::Error::new(std::io::ErrorKind::Other, "disk");
    assert_eq!(Error::from(io).status(), None);
}

#[test]
fn unspecified_dimensions_text() {
    assert_eq!(
        Error::UnspecifiedDimensions.description(),
        "Cannot convert to a valid set of dimensions. Please specify some dimensions."
    );
}

#[test]
fn from_plain_strings() {
    let owned = Error::from(String::from("owned text"));
    assert!(matches!(&owned, Error::String(s) if s == "owned text"));
    assert_eq!(owned.description(), "owned text");
    let borrowed: Error = "borrowed text".into();
    assert!(matches!(&borrowed, Error::String(s) if s == "borrowed text"));
    assert_eq!(borrowed.display(), "borrowed text");
}

#[test]
fn from_io_error() {
    let io = std::io::Error::new(std::io::ErrorKind::NotFound, "no such device file");
    let expected = io.to_string();
    let e = Error::from(io);
    assert!(matches!(&e, Error::Io(_)));
    assert_eq!(e.description(), expected);
    assert_eq!(e.description(), "no such device file");
}

#[test]
fn from_utf8_error() {
    let bad = String::from_utf8(vec![0x61, 0xff, 0x62]).unwrap_err();
    let expected = bad.to_string();
    let e = Error::from(bad);
    assert!(matches!(&e, Error::FromUtf8Error(_)));
    assert_eq!(e.description(), expected);
    assert_eq!(e.display(), expected);
}

#[test]
fn into_string_is_description() {
    let e = Error::err_status::<()>(-5, "clFinish", "").unwrap_err();
    let d = e.description();
    let s: String = e.into();
    assert_eq!(s, d);
    let m: String = Error::new("plain").into();
    assert_eq!(m, "plain");
}

#[test]
fn display_matches_description() {
    let errors = vec![
        Error::err_conversion::<()>("conv").unwrap_err(),
        Error::err_status::<()>(-61, "clCreateBuffer", "size=0").unwrap_err(),
        Error::new("message"),
        Error::from(std::io::Error::new(std::io::ErrorKind::Other, "io")),
        Error::from(String::from_utf8(vec![0xc3]).unwrap_err()),
        Error::UnspecifiedDimensions,
    ];
    for e in &errors {
        assert_eq!(e.display(), e.description());
    }
}

#[test]
fn decimal_rendering() {
    let cases: Vec<(i32, &str)> = vec![
        (0, "0"),
        (7, "7"),
        (10, "10"),
        (1234, "1234"),
        (-5, "-5"),
        (-1001, "-1001"),
        (i32::MAX, "2147483647"),
        (i32::MIN, "-2147483648"),
    ];
    for (v, text) in cases {
        let mut out = String::from("n=");
        append_decimal(&mut out, v);
        assert_eq!(out, format!("n={}", text));
    }
}
