#[test]
fn each_module_tells_its_name() {
    let modules: [(&str, fn() -> &'static str); 9] = [
        ("file", nrv_rs::file::module_name),
        ("dir", nrv_rs::dir::module_name),
        ("apply", nrv_rs::apply::module_name),
        ("llm", nrv_rs::llm::module_name),
        ("ctx", nrv_rs::ctx::module_name),
        ("match", nrv_rs::matcher::module_name),
        ("proof", nrv_rs::proofs::module_name),
        ("ui", nrv_rs::ui::module_name),
        ("exec", nrv_rs::exec::module_name),
    ];
    for (expected, module_fn) in modules {
        assert_eq!(module_fn(), expected);
    }
}
