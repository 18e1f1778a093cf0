//! What a new project is made of, computed from the answers to the prompts.
use vstd::prelude::*;
use crate::cmake::{generate_cmakelists, generate_source_file, cmake_text, source_ext, source_text};
use crate::sanitize::{sanitize_folder_name, sanitized};
use crate::text::str_eq;

verus! {

/// The folder, and the two files with their contents, that make up a project.
pub struct ProjectPlan {
    /// Name of the project folder.
    pub folder_name: String,
    /// Contents of `CMakeLists.txt`.
    pub cmake_lists: String,
    /// Name of the source file under `src/`.
    pub source_file_name: String,
    /// Contents of the source file.
    pub source: String,
}

/// The language tag for a language choice: `c` for `C`, `cxx` otherwise.
pub open spec fn lang_tag(choice: Seq<char>) -> Seq<char> {
    if choice == "C"@ {
        "c"@
    } else {
        "cxx"@
    }
}

/// The project type for a type choice: `static_lib` for `Static Library`,
/// `exe` otherwise.
pub open spec fn type_tag(choice: Seq<char>) -> Seq<char> {
    if choice == "Static Library"@ {
        "static_lib"@
    } else {
        "exe"@
    }
}

/// Builds the project for a raw name, a language choice (`C` or `C++`), a type
/// choice (`Executable` or `Static Library`) and a C++ standard. The folder is
/// the sanitized name; `CMakeLists.txt` embeds the raw name.
pub fn plan_project(
    project_name: &str,
    lang_choice: &str,
    type_choice: &str,
    cxx_standard: &str,
) -> (p: ProjectPlan)
    ensures
        p.folder_name@ == sanitized(project_name@),
        p.cmake_lists@ == cmake_text(
            project_name@,
            lang_tag(lang_choice@),
            type_tag(type_choice@),
            cxx_standard@,
        ),
        p.source_file_name@ == "main."@ + source_ext(lang_tag(lang_choice@)),
        p.source@ == source_text(lang_tag(lang_choice@)),
{
    let lang = if str_eq(lang_choice, "C") {
        "c"
    } else {
        "cxx"
    };
    let project_type = if str_eq(type_choice, "Static Library") {
        "static_lib"
    } else {
        "exe"
    };
    let folder_name = sanitize_folder_name(project_name);
    let cmake_lists = match generate_cmakelists(project_name, lang, project_type, cxx_standard) {
        Ok(text) => text,
        // Both project types above are known, so this arm is never taken.
        Err(_) => String::new(),
    };
    let mut source_file_name = String::from_str("main.");
    if str_eq(lang, "c") {
        source_file_name.append("c");
    } else {
        source_file_name.append("cpp");
    }
    let source = generate_source_file(lang);
    ProjectPlan { folder_name, cmake_lists, source_file_name, source }
}

} // verus!
