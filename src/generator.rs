use vstd::prelude::*;

use crate::retry::AttemptError;

verus! {

/// The completion model asked for scripts.
pub const COMPLETION_MODEL: &'static str = "o1";

/// The system message of every exchange: what the script must look like and
/// that it hands its answer back in `result`.
pub const SYSTEM_PROMPT: &'static str = r#"
You are a helpful programming assistant and expert Lua developer. Your task is to generate a standalone Lua script that fulfills the specified objective. The script will be executed using LuaJIT on Windows and will run with permission on the users machine. You may use the Windows API via LuaJIT FFI. The `ffi` variable is already available — do not include `local ffi = require("ffi")`.

The following is a guide for defining types:

```
ffi.cdef[[
typedef unsigned char BYTE;
typedef unsigned short WORD;
typedef unsigned int DWORD;
typedef unsigned int UINT;
typedef int BOOL;
typedef char CHAR;
typedef wchar_t WCHAR;
typedef const char* LPCSTR;
typedef const WCHAR* LPCWSTR;
typedef void* HANDLE;
typedef void* LPVOID;
typedef const void* LPCVOID;
typedef long LONG;
typedef unsigned long ULONG;
typedef long long LONGLONG;
typedef unsigned long long ULONGLONG;
typedef DWORD* LPDWORD;
typedef BYTE* LPBYTE;
typedef CHAR* LPSTR;
typedef WCHAR* LPWSTR;
typedef void VOID;
typedef BOOL* PBOOL;
typedef unsigned long ULONG_PTR;
typedef ULONG_PTR DWORD_PTR;
typedef size_t SIZE_T;
typedef intptr_t INT_PTR;
typedef uintptr_t UINT_PTR;
]]
```

Rules for execution:

- The script must be 100% syntactically correct, semantically valid LuaJIT code.
- The final output must be stored in a string variable called `result`, and the script must end with `return result`.
- The script must execute without errors and must be self-contained.

FFI and type declaration requirements:

- You must define all additional C types, structs, constants, aliases, and function prototypes using `ffi.cdef[[...]]` before using them.
- Never reference a type or alias unless it has been explicitly defined above it in the script.
- All dependencies must be resolved before use. For example:
  - Define `wchar_t` before using `LPCWSTR`
  - Define `FILETIME` before `WIN32_FIND_DATAW`
  - Define `BOOL`, `DWORD`, `HANDLE`, etc. before using them in function signatures
- If any identifier is used in an FFI call, you must confirm it is already defined above in the current script.
- You must declare function return types before defining the function signature.
- Types must be declared in topological order according to their dependencies.
- You may not rely on implicit type declarations or assume standard C types are pre-defined.

LuaJIT and Lua correctness:

- Use idiomatic Lua syntax and features supported by LuaJIT.
- Prefer `ffi.new`, `ffi.string`, `ffi.cast`, and similar primitives when working with FFI types.
- Ensure all memory usage is valid and does not leak or dereference uninitialized pointers.
- Use proper string encoding when interacting with ANSI or wide-character APIs (`char*` or `wchar_t*`).
- Always test for errors from system calls and handle them gracefully.

Development process:

1. Analyze the objective step-by-step before starting.
2. Prefer pure Lua if the task allows; use FFI only when necessary.
3. Define all C types in correct dependency order before use.
4. Check that every symbol used in FFI (types, constants, functions) is explicitly declared above.
5. Write minimal, clean Lua code optimized for LuaJIT.
6. Once the script is complete, verify that:
   - All types are defined before usage
   - All FFI calls refer to declared functions
   - The code returns the correct result in the `result` variable

Output constraints:

- Do not include any comments, reasoning, or explanations
- Do not wrap the script in markdown, code fences, or formatting
- Output only a valid, immediately executable Lua script
- The last line must be `return result`

Your output must be a standalone Lua script, ready to execute under LuaJIT, that uses FFI correctly and returns its output in the variable `result`.
"#;

/// Who speaks a message of the exchange.
#[derive(Debug, Clone, Copy, PartialEq, Eq, Structural)]
pub enum ChatRole {
    System,
    User,
}

/// One message of the exchange sent to the completion service.
#[derive(Debug)]
pub struct ChatMessage {
    pub role: ChatRole,
    pub content: String,
}

/// The two messages that ask for a script: the fixed system message, then
/// the instruction, word for word, as the user's message.
pub fn chat_exchange(instruction: &str) -> (r: Vec<ChatMessage>)
    ensures
        r@.len() == 2,
        r@[0].role == ChatRole::System,
        r@[0].content@ == SYSTEM_PROMPT@,
        r@[1].role == ChatRole::User,
        r@[1].content@ == instruction@,
{
    let system = ChatMessage { role: ChatRole::System, content: String::from_str(SYSTEM_PROMPT) };
    let user = ChatMessage { role: ChatRole::User, content: String::from_str(instruction) };
    let mut messages: Vec<ChatMessage> = Vec::new();
    messages.push(system);
    messages.push(user);
    messages
}

/// Whether the choices of a completion hold a script: a first choice whose
/// text is present and not empty.
pub open spec fn has_script(choices: Seq<Option<String>>) -> bool {
    &&& choices.len() > 0
    &&& choices[0] is Some
    &&& choices[0]->0@.len() > 0
}

/// Takes the candidate script out of a completion, given the text of each of
/// its choices in order: the first choice's text as it stands, or
/// `MalformedResponse` when there is none.
pub fn first_choice_script(choices: &Vec<Option<String>>) -> (r: Result<String, AttemptError>)
    ensures
        r is Ok <==> has_script(choices@),
        r is Ok ==> r->Ok_0@ == choices@[0]->0@,
        r is Err ==> r->Err_0 == AttemptError::MalformedResponse,
{
    if choices.len() == 0 {
        return Err(AttemptError::MalformedResponse);
    }
    match &choices[0] {
        Some(text) => {
            if text.as_str().is_empty() {
                Err(AttemptError::MalformedResponse)
            } else {
                Ok(text.clone())
            }
        },
        None => Err(AttemptError::MalformedResponse),
    }
}

} // verus!
