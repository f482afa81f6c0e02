use rust_tui_coder::report::{
    command_separator_of, content_appended, deeper, deleted, directory_created,
    distribution_in, file_missing, system_report,
    file_read, file_written, listing, listing_line, memory_entry, new_memory, plan_cleared,
    recalled, recursive_listing, recursive_listing_line, remembered, replace_in_file, shell_of,
    system_details, time_report, transferred,
};

#[test]
fn file_reports() {
    assert_eq!(file_read("a.txt", "Test content"), "File: a.txt\n\nTest content");
    assert_eq!(file_written("a.txt", 12), "File 'a.txt' written successfully (12 bytes).");
    assert_eq!(file_missing("a.txt"), "File 'a.txt' does not exist");
    assert_eq!(content_appended("a.txt", 0), "Content appended to 'a.txt' successfully (0 bytes added).");
    assert_eq!(deleted("d", true), "Directory 'd' deleted successfully.");
    assert_eq!(deleted("f", false), "File 'f' deleted successfully.");
    assert_eq!(directory_created("a/b"), "Directory 'a/b' created successfully.");
    assert_eq!(transferred("copied", "a", "b"), "Successfully copied 'a' to 'b'");
    assert_eq!(transferred("moved", "a", "b"), "Successfully moved 'a' to 'b'");
    assert_eq!(transferred("renamed", "a", "b"), "Successfully renamed 'a' to 'b'");
}

#[test]
fn replacement_in_a_file() {
    assert_eq!(
        replace_in_file("f.txt", "Hello World! World is great.", "World", "Rust"),
        Ok((
            "Hello Rust! Rust is great.".to_string(),
            "Successfully replaced 'World' with 'Rust' in 'f.txt'".to_string()
        ))
    );
    assert_eq!(
        replace_in_file("f.txt", "Hello World", "NonExistent", "Replacement"),
        Err("Old string 'NonExistent' not found in file 'f.txt'".to_string())
    );
    assert_eq!(
        replace_in_file("p", "Price: $100.00\nDiscount: 20%", "$100.00", "$150.00").unwrap().0,
        "Price: $150.00\nDiscount: 20%"
    );
    assert_eq!(replace_in_file("p", "ab", "", "-").unwrap().0, "-a-b-");
}

#[test]
fn listings() {
    assert_eq!(listing_line("src", true), "[DIR] src");
    assert_eq!(listing_line("a.txt", false), "[FILE] a.txt");
    assert_eq!(recursive_listing_line("  ", "sub", true, '/'), "  [DIR] sub/");
    assert_eq!(recursive_listing_line("", "f", false, '/'), "[FILE] f");
    assert_eq!(deeper(""), "  ");
    assert_eq!(deeper("  "), "    ");
    let lines = vec!["[DIR] a".to_string(), "[FILE] b".to_string()];
    assert_eq!(listing(".", &lines), "Contents of '.':\n[DIR] a\n[FILE] b");
    assert_eq!(listing("empty", &vec![]), "Contents of 'empty':\n");
    assert_eq!(recursive_listing(".", &lines), "Recursive contents of '.':\n[DIR] a\n[FILE] b");
}

#[test]
fn memory_and_plan_reports() {
    assert_eq!(memory_entry("2024-01-02 03:04:05", "use tabs"), "\n## [2024-01-02 03:04:05]\nuse tabs\n");
    assert_eq!(new_memory("\n## [t]\nf\n"), "# Agent Memory\n\n## [t]\nf\n");
    assert_eq!(remembered("use tabs", ".agent_memory.md"), "Remembered: 'use tabs' (saved to .agent_memory.md)");
    assert_eq!(recalled(Some("# Agent Memory\n")), "Project Memory:\n\n# Agent Memory\n");
    assert_eq!(recalled(None), "No project memory found. Use REMEMBER to save important facts.");
    assert_eq!(plan_cleared(true), "Cleared plan.md - task completed!");
    assert_eq!(plan_cleared(false), "No plan.md file found to clear");
}

#[test]
fn system_reports() {
    assert_eq!(
        time_report("2024-01-02", "03:04:05", "+01:00", 1704161045),
        "Current Date & Time:\n\u{2022} Date: 2024-01-02\n\u{2022} Time: 03:04:05\n\u{2022} Timezone: +01:00\n\u{2022} Unix Timestamp: 1704161045"
    );
    assert_eq!(system_details("linux", Some("Debian GNU/Linux 12")), "Linux (Debian GNU/Linux 12)");
    assert_eq!(system_details("linux", None), "Linux (Unknown Linux Distribution)");
    assert_eq!(system_details("macos", Some("x")), "macOS");
    assert_eq!(system_details("windows", None), "Windows");
    assert_eq!(system_details("freebsd", None), "freebsd");
    assert_eq!(shell_of("windows"), "cmd.exe / PowerShell");
    assert_eq!(shell_of("linux"), "bash / sh");
    assert_eq!(command_separator_of("windows"), "&");
    assert_eq!(command_separator_of("macos"), "&&");
}

#[test]
fn distribution_is_read_from_the_release_file() {
    let release = "NAME=\"Debian GNU/Linux\"\nPRETTY_NAME=\"Debian GNU/Linux 12 (bookworm)\"\nVERSION_ID=\"12\"\nPRETTY_NAME=\"second\"\n";
    assert_eq!(distribution_in(release), Some("Debian GNU/Linux 12 (bookworm)".to_string()));
    assert_eq!(distribution_in("PRETTY_NAME=Arch Linux"), Some("Arch Linux".to_string()));
    assert_eq!(distribution_in("PRETTY_NAME=PRETTY_NAME=\"\"x\"\"\""), Some("x".to_string()));
    assert_eq!(distribution_in("PRETTY_NAME=\"\""), Some("".to_string()));
    assert_eq!(distribution_in(" PRETTY_NAME=\"x\""), None);
    assert_eq!(distribution_in("NAME=x"), None);
    assert_eq!(distribution_in(""), None);
    for line in ["PRETTY_NAME=\"a \"b\" c\"", "PRETTY_NAME=\"\"\"", "PRETTY_NAME=x\"", "PRETTY_NAME=PRETTY_NAME="] {
        let expected = line.trim_start_matches("PRETTY_NAME=").trim_matches('"').to_string();
        assert_eq!(distribution_in(line), Some(expected), "{:?}", line);
    }
}

#[test]
fn system_report_lists_the_details() {
    assert_eq!(
        system_report("Linux (Debian)", "x86_64", "unix", "bash / sh", '/', "&&", "/tmp"),
        "Operating System Information:\n\u{2022} OS: Linux (Debian)\n\u{2022} Architecture: x86_64\n\u{2022} OS Family: unix\n\u{2022} Shell: bash / sh\n\u{2022} Path Separator: /\n\u{2022} Command Separator: &&\n\u{2022} Temp Directory: /tmp"
    );
}
