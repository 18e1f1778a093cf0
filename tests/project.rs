use cmake_scaffold::project::plan_project;

#[test]
fn plan_cxx_executable_standard_20() {
    let plan = plan_project("My App", "C++", "Executable", "20");
    assert_eq!(plan.folder_name, "MyApp");
    assert_eq!(plan.source_file_name, "main.cpp");
    assert!(plan.source.contains("std::cout"));
    let lines: Vec<&str> = plan.cmake_lists.lines().collect();
    assert_eq!(lines[1], "project(My App LANGUAGES CXX)");
    assert!(lines.contains(&"set(CMAKE_CXX_STANDARD 20)"));
    assert!(lines.contains(&"add_executable(My App src/main.cpp)"));
    assert!(!plan.cmake_lists.contains("MyApp"));
}

#[test]
fn plan_c_static_library() {
    let plan = plan_project("!!!", "C", "Static Library", "00");
    assert_eq!(plan.folder_name, "cmake_project");
    assert_eq!(plan.source_file_name, "main.c");
    assert!(plan.source.contains("printf"));
    assert!(plan.cmake_lists.contains("add_library(!!! STATIC src/main.c)"));
    assert!(!plan.cmake_lists.contains("CMAKE_CXX_STANDARD"));
}
