//! Rendering of `CMakeLists.txt` and of the "hello world" source file.
use vstd::prelude::*;
use crate::text::{join_lines, join_with_newlines, str_eq, views_of};

verus! {

/// Why a build description could not be rendered.
#[derive(Debug, Clone, Copy, PartialEq, Eq, Structural)]
pub enum GenerateError {
    /// The project type is neither `exe` nor `static_lib`.
    UnsupportedProjectType,
}

/// The uppercase form of a string, as `str::to_uppercase` gives it.
pub uninterp spec fn upper_of(s: Seq<char>) -> Seq<char>;

/// Relies on `str::to_uppercase`: its result depends on the characters alone.
#[verifier::external_body]
fn uppercase(s: &str) -> (r: String)
    ensures
        r@ == upper_of(s@),
{
    s.to_uppercase()
}

/// A project type that the renderer knows.
pub open spec fn is_known_project_type(project_type: Seq<char>) -> bool {
    project_type == "exe"@ || project_type == "static_lib"@
}

/// Extension of the generated source file: `c` for C, `cpp` for anything else.
pub open spec fn source_ext(lang: Seq<char>) -> Seq<char> {
    if lang == "c"@ {
        "c"@
    } else {
        "cpp"@
    }
}

/// The lines of `CMakeLists.txt` for a known project type.
pub open spec fn cmake_lines(
    name: Seq<char>,
    lang: Seq<char>,
    project_type: Seq<char>,
    cxx_standard: Seq<char>,
) -> Seq<Seq<char>> {
    let header = seq![
        "cmake_minimum_required(VERSION 3.20)"@,
        "project("@ + name + " LANGUAGES "@ + upper_of(lang) + ")"@,
        Seq::<char>::empty(),
    ];
    let standard = if lang == "cxx"@ {
        seq![
            "set(CMAKE_CXX_STANDARD "@ + cxx_standard + ")"@,
            "set(CMAKE_CXX_STANDARD_REQUIRED ON)"@,
            Seq::<char>::empty(),
        ]
    } else {
        Seq::<Seq<char>>::empty()
    };
    let targets = if project_type == "exe"@ {
        seq!["add_executable("@ + name + " src/main."@ + source_ext(lang) + ")"@]
    } else {
        seq![
            "add_library("@ + name + " STATIC src/main."@ + source_ext(lang) + ")"@,
            "target_include_directories("@ + name + " PRIVATE include)"@,
            "target_compile_definitions("@ + name + " PUBLIC "@ + upper_of(name) + "_EXPORTS)"@,
        ]
    };
    header + standard + targets
}

/// The text of `CMakeLists.txt` for a known project type.
pub open spec fn cmake_text(
    name: Seq<char>,
    lang: Seq<char>,
    project_type: Seq<char>,
    cxx_standard: Seq<char>,
) -> Seq<char> {
    join_lines(cmake_lines(name, lang, project_type, cxx_standard))
}

/// Appends `line` to `lines`.
fn push_line(lines: &mut Vec<String>, line: String)
    ensures
        views_of(final(lines)@) == views_of(old(lines)@).push(line@),
{
    lines.push(line);
    assert(views_of(lines@) =~= views_of(old(lines)@).push(line@));
}

/// A blank line.
fn empty_line() -> (r: String)
    ensures
        r@ == Seq::<char>::empty(),
{
    String::new()
}

/// `a` followed by `b` and `c`.
fn concat3(a: &str, b: &str, c: &str) -> (r: String)
    ensures
        r@ == a@ + b@ + c@,
{
    let mut r = String::from_str(a);
    r.append(b);
    r.append(c);
    r
}

/// `a`, `b`, `c`, `d` and `e` one after another.
fn concat5(a: &str, b: &str, c: &str, d: &str, e: &str) -> (r: String)
    ensures
        r@ == a@ + b@ + c@ + d@ + e@,
{
    let mut r = concat3(a, b, c);
    r.append(d);
    r.append(e);
    r
}

/// Renders `CMakeLists.txt`: the version floor, the `project` line with the raw
/// name and the uppercased language, the standard for `cxx`, then an executable
/// target for `exe` or a static library with its include directory and export
/// definition for `static_lib`. Any other project type is refused.
pub fn generate_cmakelists(
    project_name: &str,
    lang: &str,
    project_type: &str,
    cxx_standard: &str,
) -> (r: Result<String, GenerateError>)
    ensures
        match r {
            Ok(text) => is_known_project_type(project_type@) && text@ == cmake_text(
                project_name@,
                lang@,
                project_type@,
                cxx_standard@,
            ),
            Err(e) => !is_known_project_type(project_type@) && e
                == GenerateError::UnsupportedProjectType,
        },
{
    let is_exe = str_eq(project_type, "exe");
    let is_lib = str_eq(project_type, "static_lib");
    if !is_exe && !is_lib {
        return Err(GenerateError::UnsupportedProjectType);
    }
    let is_c = str_eq(lang, "c");
    let ext = if is_c {
        "c"
    } else {
        "cpp"
    };
    let mut lines: Vec<String> = Vec::new();
    push_line(&mut lines, String::from_str("cmake_minimum_required(VERSION 3.20)"));
    let lang_upper = uppercase(lang);
    push_line(
        &mut lines,
        concat5("project(", project_name, " LANGUAGES ", lang_upper.as_str(), ")"),
    );
    push_line(&mut lines, empty_line());
    if str_eq(lang, "cxx") {
        push_line(&mut lines, concat3("set(CMAKE_CXX_STANDARD ", cxx_standard, ")"));
        push_line(&mut lines, String::from_str("set(CMAKE_CXX_STANDARD_REQUIRED ON)"));
        push_line(&mut lines, empty_line());
    }
    if is_exe {
        push_line(
            &mut lines,
            concat5("add_executable(", project_name, " src/main.", ext, ")"),
        );
    } else {
        push_line(
            &mut lines,
            concat5("add_library(", project_name, " STATIC src/main.", ext, ")"),
        );
        push_line(
            &mut lines,
            concat3("target_include_directories(", project_name, " PRIVATE include)"),
        );
        let name_upper = uppercase(project_name);
        push_line(
            &mut lines,
            concat5(
                "target_compile_definitions(",
                project_name,
                " PUBLIC ",
                name_upper.as_str(),
                "_EXPORTS)",
            ),
        );
    }
    proof {
        assert(views_of(lines@) =~= cmake_lines(
            project_name@,
            lang@,
            project_type@,
            cxx_standard@,
        ));
    }
    Ok(join_with_newlines(&lines))
}

/// The C "hello world" program.
pub const C_HELLO_SOURCE: &'static str = "#include <stdio.h>\n\nint main() {\n    printf(\"Hello, World!\\n\");\n    return 0;\n}";

/// The C++ "hello world" program.
pub const CXX_HELLO_SOURCE: &'static str = "#include <iostream>\n\nint main() {\n    std::cout << \"Hello, World!\" << std::endl;\n    return 0;\n}";

/// The source file's text: the C program for `c`, the C++ one otherwise.
pub open spec fn source_text(lang: Seq<char>) -> Seq<char> {
    if lang == "c"@ {
        C_HELLO_SOURCE@
    } else {
        CXX_HELLO_SOURCE@
    }
}

/// Renders the "hello world" source file for `lang`.
pub fn generate_source_file(lang: &str) -> (r: String)
    ensures
        r@ == source_text(lang@),
{
    if str_eq(lang, "c") {
        String::from_str(C_HELLO_SOURCE)
    } else {
        String::from_str(CXX_HELLO_SOURCE)
    }
}

} // verus!
