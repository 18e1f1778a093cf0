use cmake_scaffold::cmake::{
    generate_cmakelists, generate_source_file, GenerateError, CXX_HELLO_SOURCE, C_HELLO_SOURCE,
};

#[test]
fn cmake_c_executable() {
    let text = generate_cmakelists("demo", "c", "exe", "00").unwrap();
    assert!(text.lines().any(|l| l == "add_executable(demo src/main.c)"));
    assert!(!text.contains("CMAKE_CXX_STANDARD"));
    assert_eq!(
        text,
        "cmake_minimum_required(VERSION 3.20)\nproject(demo LANGUAGES C)\n\nadd_executable(demo src/main.c)"
    );
}

#[test]
fn cmake_cxx_static_library_17() {
    let text = generate_cmakelists("libfoo", "cxx", "static_lib", "17").unwrap();
    let lines: Vec<&str> = text.lines().collect();
    assert!(lines.contains(&"set(CMAKE_CXX_STANDARD 17)"));
    assert!(lines.contains(&"add_library(libfoo STATIC src/main.cpp)"));
    assert!(lines.contains(&"target_include_directories(libfoo PRIVATE include)"));
    assert!(lines.contains(&"target_compile_definitions(libfoo PUBLIC LIBFOO_EXPORTS)"));
    assert_eq!(
        lines,
        vec![
            "cmake_minimum_required(VERSION 3.20)",
            "project(libfoo LANGUAGES CXX)",
            "",
            "set(CMAKE_CXX_STANDARD 17)",
            "set(CMAKE_CXX_STANDARD_REQUIRED ON)",
            "",
            "add_library(libfoo STATIC src/main.cpp)",
            "target_include_directories(libfoo PRIVATE include)",
            "target_compile_definitions(libfoo PUBLIC LIBFOO_EXPORTS)",
        ]
    );
}

#[test]
fn cmake_cxx_executable_uses_cpp_extension() {
    let text = generate_cmakelists("app", "cxx", "exe", "20").unwrap();
    assert_eq!(
        text,
        "cmake_minimum_required(VERSION 3.20)\nproject(app LANGUAGES CXX)\n\n\
         set(CMAKE_CXX_STANDARD 20)\nset(CMAKE_CXX_STANDARD_REQUIRED ON)\n\n\
         add_executable(app src/main.cpp)"
    );
}

#[test]
fn cmake_c_static_library_has_no_standard() {
    let text = generate_cmakelists("my lib", "c", "static_lib", "00").unwrap();
    assert!(!text.contains("CMAKE_CXX_STANDARD"));
    assert!(text.contains("project(my lib LANGUAGES C)"));
    assert!(text.contains("add_library(my lib STATIC src/main.c)"));
    assert!(text.ends_with("target_compile_definitions(my lib PUBLIC MY LIB_EXPORTS)"));
}

#[test]
fn cmake_unknown_project_type_is_refused() {
    assert_eq!(
        generate_cmakelists("demo", "c", "shared", "00"),
        Err(GenerateError::UnsupportedProjectType)
    );
    assert_eq!(
        generate_cmakelists("demo", "cxx", "", "17"),
        Err(GenerateError::UnsupportedProjectType)
    );
}

#[test]
fn source_file_for_each_language() {
    let c = generate_source_file("c");
    assert!(c.contains("printf"));
    assert!(c.contains("#include <stdio.h>"));
    assert_eq!(c, C_HELLO_SOURCE);
    let cxx = generate_source_file("cxx");
    assert!(cxx.contains("std::cout"));
    assert!(cxx.contains("#include <iostream>"));
    assert_eq!(cxx, CXX_HELLO_SOURCE);
    assert_eq!(generate_source_file("cpp"), CXX_HELLO_SOURCE);
}
