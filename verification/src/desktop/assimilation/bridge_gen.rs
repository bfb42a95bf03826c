//! Bridge code generation for an assimilated module.
use vstd::prelude::*;
use crate::desktop::assimilation::analyzer::Analysis;
use crate::text::{replace, replaced, same_text};

verus! {

pub struct BridgeGenerator;

/// The module name usable as an identifier: '-' and ' ' become '_'.
pub open spec fn safe_ident_of(name: Seq<char>) -> Seq<char> {
    replaced(replaced(name, "-"@, "_"@), " "@, "_"@)
}

/// The Rust command stub for `name`.
pub open spec fn rust_bridge_of(name: Seq<char>) -> Seq<char> {
    "// Auto-generated Tauri command for "@ + name
        + "\nuse tauri::State;\nuse crate::AppState;\n\n#[tauri::command]\nfn "@ + name
        + "_command(state: State<AppState>, input: String) -> Result<String, String> {\n    log::info!(\""@
        + name + "_command called with: {}\", input);\n    // TODO: Implement "@ + name
        + " integration\n    Ok(format!(\""@ + name + " processed: {}\", input))\n}\n"@
}

/// The TypeScript invoke wrapper for `name`.
pub open spec fn js_bridge_of(name: Seq<char>) -> Seq<char> {
    "// Auto-generated invoke wrapper for "@ + name
        + "\nimport { invoke } from \"../lib/tauri\";\n\nexport async function "@ + name
        + "Command(input: string): Promise<string> {\n    try {\n        return await invoke<string>(\""@
        + name + "_command\", { input });\n    } catch (err) {\n        console.error(\""@ + name
        + " error:\", err);\n        return `Error: ${err}`;\n    }\n}\n"@
}

/// The Python bridge class for `name`.
pub open spec fn python_bridge_of(name: Seq<char>) -> Seq<char> {
    "# Auto-generated Python bridge for "@ + name + "\nimport subprocess\nimport json\n\nclass "@
        + name
        + "Bridge:\n    def __init__(self, host=\"127.0.0.1\", port=9876):\n        self.host = host\n        self.port = port\n    \n    def call(self, method: str, params: dict) -> dict:\n        payload = json.dumps({\n            \"jsonrpc\": \"2.0\",\n            \"method\": method,\n            \"params\": params,\n            \"id\": 1\n        })\n        # TODO: Implement MCP call\n        return {\"result\": \"not implemented\"}\n\n    def process(self, input_data: str) -> str:\n        return self.call(\""@
        + name + "_process\", {\"input\": input_data})\n"@
}

/// The bridge for the analysed language; other languages get a note.
pub open spec fn bridge_of(name: Seq<char>, language: Seq<char>) -> Seq<char> {
    if language == "Rust"@ {
        rust_bridge_of(safe_ident_of(name))
    } else if language == "TypeScript"@ || language == "JavaScript"@ {
        js_bridge_of(safe_ident_of(name))
    } else if language == "Python"@ {
        python_bridge_of(safe_ident_of(name))
    } else {
        "// "@ + name + " icin bridge kodu otomatik uretilemedi"@
    }
}

impl BridgeGenerator {
    /// The bridge code for module `name`.
    pub fn generate_tauri_command(name: &str, analysis: &Analysis) -> (r: String)
        ensures
            r@ == bridge_of(name@, analysis.language@),
    {
        proof {
            reveal_strlit("-");
            reveal_strlit(" ");
        }
        let a = replace(name, "-", "_");
        let safe = replace(a.as_str(), " ", "_");
        let lang = analysis.language.as_str();
        if same_text(lang, "Rust") {
            Self::rust_bridge(safe.as_str())
        } else if same_text(lang, "TypeScript") || same_text(lang, "JavaScript") {
            Self::js_bridge(safe.as_str())
        } else if same_text(lang, "Python") {
            Self::python_bridge(safe.as_str())
        } else {
            "// ".to_string().concat(name).concat(" icin bridge kodu otomatik uretilemedi")
        }
    }

    fn rust_bridge(name: &str) -> (r: String)
        ensures
            r@ == rust_bridge_of(name@),
    {
        "// Auto-generated Tauri command for ".to_string().concat(name).concat(
            "\nuse tauri::State;\nuse crate::AppState;\n\n#[tauri::command]\nfn ",
        ).concat(name).concat(
            "_command(state: State<AppState>, input: String) -> Result<String, String> {\n    log::info!(\"",
        ).concat(name).concat("_command called with: {}\", input);\n    // TODO: Implement ").concat(
            name,
        ).concat(" integration\n    Ok(format!(\"").concat(name).concat(
            " processed: {}\", input))\n}\n",
        )
    }

    fn js_bridge(name: &str) -> (r: String)
        ensures
            r@ == js_bridge_of(name@),
    {
        "// Auto-generated invoke wrapper for ".to_string().concat(name).concat(
            "\nimport { invoke } from \"../lib/tauri\";\n\nexport async function ",
        ).concat(name).concat(
            "Command(input: string): Promise<string> {\n    try {\n        return await invoke<string>(\"",
        ).concat(name).concat("_command\", { input });\n    } catch (err) {\n        console.error(\"").concat(
            name,
        ).concat(" error:\", err);\n        return `Error: ${err}`;\n    }\n}\n")
    }

    fn python_bridge(name: &str) -> (r: String)
        ensures
            r@ == python_bridge_of(name@),
    {
        "# Auto-generated Python bridge for ".to_string().concat(name).concat(
            "\nimport subprocess\nimport json\n\nclass ",
        ).concat(name).concat(
            "Bridge:\n    def __init__(self, host=\"127.0.0.1\", port=9876):\n        self.host = host\n        self.port = port\n    \n    def call(self, method: str, params: dict) -> dict:\n        payload = json.dumps({\n            \"jsonrpc\": \"2.0\",\n            \"method\": method,\n            \"params\": params,\n            \"id\": 1\n        })\n        # TODO: Implement MCP call\n        return {\"result\": \"not implemented\"}\n\n    def process(self, input_data: str) -> str:\n        return self.call(\"",
        ).concat(name).concat("_process\", {\"input\": input_data})\n")
    }
}

} // verus!
