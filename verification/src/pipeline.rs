//! The compilation pipeline: source text to an object buffer.
//!
//! Tokenize, parse one actor, analyze it, generate code and emit — each
//! stage under its own contract; reading source files and writing the
//! buffer out belong to the caller.

use vstd::prelude::*;
use vstd::string::StrSliceExecFns;
use crate::ast::{Actor, Type};
use crate::codegen::create_generator;
use crate::codegen::error::{cg_matches, CodeGenError};
use crate::codegen::generator::{
    actor_artifacts, agg_models, encode_module, func_models, module_wf, AggregateModel,
    FunctionModel,
};
use crate::lexer::{lex, lexable_at};
use crate::parser::{ParseError, Parser};
use crate::semantic::{actor_outcome, issue_matches, SemanticAnalyzer, SemanticError};

verus! {

/// A failure of some stage of the pipeline.
#[derive(Debug)]
pub enum CompileError {
    /// Lexing stopped at this character position.
    LexFailure { position: usize },
    ParseFailure(ParseError),
    SemanticFailure(SemanticError),
    CodeGenFailure(CodeGenError),
}

/// The result that compiling one parsed actor declaration owes: against
/// a fresh analyzer and a fresh module, a semantic failure carrying
/// exactly the analysis outcome; else a code-generation failure carrying
/// exactly the artifact failure; else, when the artifact passes module
/// verification, the encoded module's bytes — and a validation failure
/// when it does not.
pub open spec fn object_outcome(a: Actor, r: Result<Vec<u8>, CompileError>) -> bool {
    let env = Seq::<(String, Type)>::empty();
    let scopes = seq![Seq::<(String, Type)>::empty()];
    let reg = Seq::<(String, bool)>::empty().push((a.name, false));
    match actor_outcome(env, scopes, a) {
        Some(i) => r matches Err(CompileError::SemanticFailure(e)) && issue_matches(e, i),
        None => match actor_artifacts(reg, a) {
            Err(ci) => r matches Err(CompileError::CodeGenFailure(e)) && cg_matches(e, ci),
            Ok(art) => if module_wf(seq![art.0], art.1) {
                r matches Ok(bytes) && bytes@ == encode_module(seq![art.0], art.1)
            } else {
                r matches Err(CompileError::CodeGenFailure(e)) && e
                    matches CodeGenError::Validation(m) && m@ == "Module verification failed"@
            },
        },
    }
}

/// Compiles one parsed actor declaration: analyzes it with a fresh
/// analyzer, generates code into a fresh module named `module_name`,
/// verifies the module and emits it.  Success is owed exactly when the
/// analysis is clean and the artifact verifies; every failure carries
/// its stage's exact error.
pub fn compile_actor_declaration(actor: &Actor, module_name: &str) -> (r: Result<
    Vec<u8>,
    CompileError,
>)
    ensures
        object_outcome(*actor, r),
{
    let ghost env = Seq::<(String, Type)>::empty();
    let ghost scopes = seq![Seq::<(String, Type)>::empty()];
    let ghost reg = Seq::<(String, bool)>::empty().push((actor.name, false));

    let mut analyzer = SemanticAnalyzer::new();
    proof {
        assert(analyzer.env_view() =~= env);
        assert(analyzer.scopes_view() =~= scopes);
    }
    match analyzer.analyze_actor(actor) {
        Ok(()) => {},
        Err(e) => {
            return Err(CompileError::SemanticFailure(e));
        },
    }

    let mut generator = match create_generator(module_name, None) {
        Ok(g) => g,
        Err(e) => {
            return Err(CompileError::CodeGenFailure(e));
        },
    };
    proof {
        assert(generator.type_converter.struct_types@ =~= Seq::<(String, bool)>::empty());
        assert(generator.type_converter.struct_types@.push((actor.name, false)) =~= reg);
        assert(agg_models(generator.module.aggregates@) =~= Seq::<AggregateModel>::empty());
        assert(func_models(generator.module.functions@) =~= Seq::<FunctionModel>::empty());
    }
    let ghost pre_gen = generator;
    match generator.compile_actor(actor) {
        Ok(()) => {},
        Err(e) => {
            return Err(CompileError::CodeGenFailure(e));
        },
    }
    proof {
        let art = actor_artifacts(reg, *actor)->Ok_0;
        assert(agg_models(pre_gen.module.aggregates@).push(art.0) =~= seq![art.0]);
        assert(func_models(pre_gen.module.functions@) + art.1 =~= art.1);
        assert(agg_models(generator.module.aggregates@) =~= seq![art.0]);
        assert(func_models(generator.module.functions@) =~= art.1);
    }

    match generator.emit_wasm() {
        Ok(bytes) => Ok(bytes),
        Err(e) => Err(CompileError::CodeGenFailure(e)),
    }
}

/// Compiles one actor declaration from source text: tokenize, parse,
/// then compile the parsed declaration.  When lexing stops short, the
/// reported position starts no token; a parse failure is the front
/// end's; past the front end, the result is exactly what compiling the
/// parsed declaration owes, and a produced buffer begins with the
/// four-byte object magic and the aggregate and function counts.
pub fn compile_source(source: &str, module_name: &str) -> (r: Result<Vec<u8>, CompileError>)
    ensures
        r matches Err(CompileError::LexFailure { position }) ==> position < source@.len()
            && !lexable_at(source@, position as int),
        (r is Ok || r matches Err(CompileError::SemanticFailure(_)) || r matches Err(
            CompileError::CodeGenFailure(_),
        )) ==> exists|a: Actor| object_outcome(a, r),
        r matches Ok(bytes) ==> bytes@.len() >= 20 && bytes@[0] == 0x61u8 && bytes@[1] == 0x63u8
            && bytes@[2] == 0x74u8 && bytes@[3] == 0x72u8,
{
    let n = source.unicode_len();
    let (tokens, consumed) = lex(source);
    if consumed < n {
        return Err(CompileError::LexFailure { position: consumed });
    }

    let mut parser = Parser::new(tokens);
    let ast = match parser.parse_actor() {
        Ok(a) => a,
        Err(e) => {
            return Err(CompileError::ParseFailure(e));
        },
    };

    let r = compile_actor_declaration(&ast, module_name);
    proof {
        assert(exists|a: Actor| object_outcome(a, r)) by {
            assert(object_outcome(ast, r));
        }
    }
    r
}

} // verus!
