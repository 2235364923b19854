use console_log_saver::invoker::{
    call_noargs_expression, close_library_expression, loader_expression, LOADER_HEAD, LOADER_TAIL,
};

#[test]
fn call_without_arguments() {
    assert_eq!(
        call_noargs_expression(4096),
        "#!mini-llvm-expr 1\nconst target_ptr ptr 4096\ndefine_function_type void void_no_arg\n\
         call _ void_no_arg target_ptr\nret_void\n"
    );
}

#[test]
fn close_a_library() {
    assert_eq!(
        close_library_expression(18446744073709551615),
        "#!mini-llvm-expr 1\ndefine_function_type i32 dlclose ptr\ndeclare_function dlclose dlclose\n\
         const target_ptr ptr 18446744073709551615\ncall ret dlclose dlclose target_ptr\nret_void\n"
    );
}

#[test]
fn loader_program_points_at_the_record() {
    let text = loader_expression(140737488355328);
    assert_eq!(text, format!("{LOADER_HEAD}140737488355328{LOADER_TAIL}"));
    assert!(text.contains("\nconst input ptr 140737488355328\nbegin_block 0\n"));
    assert_eq!(text.matches("begin_block").count(), 9);
    assert_eq!(text.matches("call ").count(), 7);
}
