use thenbot::code::check_code;
use thenbot::code::code_block_error;
use thenbot::code::CodeBlockError;
use thenbot::code::formatted_reply;
use thenbot::code::lint_reply;

#[test]
fn code_block_at_the_start() {
    assert_eq!(code_block_error("```py\nprint(1)\n```"), None);
    assert_eq!(check_code("```py\nprint(1)\n```"), "\nprint(1)\n".to_string());
}

#[test]
fn text_before_the_fence_is_skipped() {
    assert_eq!(code_block_error("look\n```py\nprint(1)\n```"), None);
    assert_eq!(check_code("look\n```py\nprint(1)\n```"), "\nprint(1)\n".to_string());
    assert_eq!(code_block_error("a\n```py\nx=1\n```"), None);
    assert_eq!(check_code("a\n```py\nx=1\n```"), "\nx=1\n".to_string());
    assert_eq!(code_block_error("ab```x\ncode```"), None);
    assert_eq!(check_code("ab```x\ncode```"), "\ncode".to_string());
    assert_eq!(code_block_error("aéééé```x\n```"), None);
    assert_eq!(check_code("aéééé```x\n```"), "\n".to_string());
}

#[test]
fn code_block_errors() {
    assert_eq!(code_block_error("no code here"), Some(CodeBlockError::NoOpeningFence));
    assert_eq!(code_block_error("```python"), Some(CodeBlockError::NoNewline));
    assert_eq!(code_block_error("```x=1```"), Some(CodeBlockError::NoNewline));
    assert_eq!(code_block_error("```py\nprint(1)"), Some(CodeBlockError::NoClosingFence));
}

#[test]
fn code_block_matches_str_slicing() {
    for content in [
        "```\nx = 1\n```",
        "hi ```rs\nfn main() {}\n``` bye",
        "```a\n\n```",
        "ééé```xy\nz```",
        "intro\n```python\nimport os\nprint(os.name)\n```\nthanks",
    ] {
        let firstchar = content.find("```").unwrap();
        let firstline = firstchar + content[firstchar..].find('\n').unwrap();
        let secondchar = content[firstline..].find("```").unwrap();
        let st = &content[firstline..firstline + secondchar];
        assert_eq!(code_block_error(content), None);
    assert_eq!(check_code(content), st.to_string());
    }
}

#[test]
fn replies_are_code_blocks() {
    assert_eq!(formatted_reply("print(1)"), "```Python\nprint(1)\n```");
    assert_eq!(lint_reply("All checks passed!"), "```bash\nAll checks passed!\n```");
    assert_eq!(formatted_reply("a```b"), "```Python\na b\n```");
    assert_eq!(formatted_reply("````"), "```Python\n `\n```");
    assert_eq!(formatted_reply("@everyone see discord.gg/x"), "```Python\n@\u{200B}everyone see discord\u{2024}gg/x\n```");
    assert_eq!(lint_reply("a\u{202E}b"), "```bash\na b\n```");
}
