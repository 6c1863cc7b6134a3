//! Scaffolding of new CMake projects: installs the scaffolder script into a
//! per-user data directory, registers that directory on the search path and
//! describes the CMake invocation that generates the project.
use vstd::prelude::*;

pub mod cmake_helpers;
pub mod env_helpers;
pub mod error;
pub mod path_list;
pub mod scaffolder;
pub mod scaffolder_builder;

verus! {

/// The name of the installed script.
pub const SCAFFOLDER_FILE_NAME: &'static str = "scaffolder.cmake";

/// The directory under the per-user data directory that holds the script.
pub const CMAKE_SCAFFOLDER_DIR: &'static str = "GenC";

/// The CMake script that is installed; run in script mode with `PROJECT_NAME`
/// set, it lays out a new project of that name in the current directory.
pub const SCAFFOLDER_SCRIPT: &'static str = "# Lays out a new C++ project named PROJECT_NAME in the current directory.\n# Usage: cmake -D PROJECT_NAME=<name> -P scaffolder.cmake\ncmake_minimum_required(VERSION 3.16)\n\nif(NOT DEFINED PROJECT_NAME OR PROJECT_NAME STREQUAL \"\")\n  message(FATAL_ERROR \"Usage: cmake -D PROJECT_NAME=<name> -P scaffolder.cmake\")\nendif()\n\nset(ROOT \"${CMAKE_CURRENT_SOURCE_DIR}/${PROJECT_NAME}\")\nif(EXISTS \"${ROOT}\")\n  message(FATAL_ERROR \"${ROOT} already exists\")\nendif()\n\nfile(MAKE_DIRECTORY \"${ROOT}/src\")\nfile(WRITE \"${ROOT}/CMakeLists.txt\"\n\"cmake_minimum_required(VERSION 3.16)\nproject(${PROJECT_NAME} LANGUAGES CXX)\n\nset(CMAKE_CXX_STANDARD 17)\nset(CMAKE_CXX_STANDARD_REQUIRED ON)\n\nadd_executable(${PROJECT_NAME} src/main.cpp)\n\")\nfile(WRITE \"${ROOT}/src/main.cpp\" \"int main() {\n    return 0;\n}\n\")\nfile(WRITE \"${ROOT}/.gitignore\" \"build/\n\")\n\nmessage(STATUS \"Created project ${PROJECT_NAME} in ${ROOT}\")\n";

} // verus!
