//! The built-in demo agents: the fallback table the resolver answers from
//! when the registry cannot serve a request.

use vstd::prelude::*;
use vstd::string::*;

use crate::agent::{AgentConfig, AgentView, Identity, McpTool, McpToolView, Skill};
use crate::registry::Registry;

verus! {

/// The tool entry every built-in agent registers: the `context7`
/// documentation server run through `npx`.
pub open spec fn context7_tool(t: McpToolView) -> bool {
    &&& t.name == "context7"@
    &&& t.command == "npx"@
    &&& t.args =~= seq!["-y"@, "@upstash/context7-mcp"@]
    &&& t.env =~= seq![("CONTEXT7_API_KEY"@, "${CONTEXT7_API_KEY}"@)]
    &&& t.setup_url == Some("https://context7.com/dashboard"@)
}

/// The fields the built-in Rust systems engineering agent carries.
pub open spec fn rust_architect_shape(a: AgentView) -> bool {
    &&& a.name == "rust-architect"@
    &&& a.version == "1.0.0"@
    &&& a.description == "Senior Rust Systems Engineer optimized for Tokio & zero-cost abstractions"@
    &&& a.author == "ahmed6ww"@
    &&& a.identity.model == Some("cloud-3-5-sonnet-latest"@)
    &&& a.identity.icon == Some("🦀"@)
    &&& a.skills.len() == 2
    &&& a.skills[0].name == "tokio-patterns"@
    &&& a.skills[1].name == "error-handling"@
    &&& a.mcp.len() == 1
    &&& context7_tool(a.mcp[0])
}

/// The fields the built-in full-stack web development agent carries.
pub open spec fn fullstack_next_shape(a: AgentView) -> bool {
    &&& a.name == "fullstack-next"@
    &&& a.version == "1.0.0"@
    &&& a.description == "Next.js 15 + FastAPI + ShadcnUI full-stack expert"@
    &&& a.author == "ahmed6ww"@
    &&& a.identity.model == Some("cloud-3-5-sonnet-latest"@)
    &&& a.identity.icon == Some("⚡"@)
    &&& a.skills.len() == 1
    &&& a.skills[0].name == "nextjs-patterns"@
    &&& a.mcp.len() == 1
    &&& context7_tool(a.mcp[0])
}

/// The fields the built-in testing and quality-assurance agent carries.
pub open spec fn qa_testing_squad_shape(a: AgentView) -> bool {
    &&& a.name == "qa-testing-squad"@
    &&& a.version == "1.0.0"@
    &&& a.description == "Playwright + Jest testing configuration specialist"@
    &&& a.author == "ahmed6ww"@
    &&& a.identity.model == Some("cloud-3-5-sonnet-latest"@)
    &&& a.identity.icon == Some("🧪"@)
    &&& a.skills.len() == 1
    &&& a.skills[0].name == "playwright-setup"@
    &&& a.mcp.len() == 1
    &&& context7_tool(a.mcp[0])
}

/// What the built-in table serves under each name it answers to.
pub open spec fn builtin_shape(name: Seq<char>, a: AgentView) -> bool {
    if name == "rust-architect"@ {
        rust_architect_shape(a)
    } else if name == "fullstack-next"@ {
        fullstack_next_shape(a)
    } else if name == "qa-testing-squad"@ {
        qa_testing_squad_shape(a)
    } else {
        false
    }
}

fn context7_tool_exec() -> (r: McpTool)
    ensures
        context7_tool(r@),
{
    let mut args: Vec<String> = Vec::new();
    args.push("-y".to_owned());
    args.push("@upstash/context7-mcp".to_owned());
    let mut env: Vec<(String, String)> = Vec::new();
    env.push(("CONTEXT7_API_KEY".to_owned(), "${CONTEXT7_API_KEY}".to_owned()));
    let r = McpTool {
        name: "context7".to_owned(),
        command: "npx".to_owned(),
        args,
        env,
        setup_url: Some("https://context7.com/dashboard".to_owned()),
    };
    proof {
        assert(r@.args =~= seq!["-y"@, "@upstash/context7-mcp"@]);
        assert(r@.env =~= seq![("CONTEXT7_API_KEY"@, "${CONTEXT7_API_KEY}"@)]);
    }
    r
}

fn builtin_skill(name: &str, description: &str, content: &str) -> (r: Skill)
    ensures
        r@.name == name@,
        r@.description == Some(description@),
        r@.content == content@,
        r@.source is Unspecified,
{
    let mut sk = Skill::empty();
    sk.name = name.to_owned();
    sk.description = Some(description.to_owned());
    sk.content = content.to_owned();
    sk
}

impl Registry {
    /// The built-in Rust systems engineering agent.
    pub fn rust_architect_agent(&self) -> (r: AgentConfig)
        ensures
            rust_architect_shape(r@),
    {
        let prompt = "You are a specialized Rust subagent with deep expertise in systems programming.

## Core Principles
- You prefer composition over inheritance
- You use `anyhow` for applications and `thiserror` for libraries
- You strictly follow borrow checker patterns
- You leverage zero-cost abstractions whenever possible
- You write idiomatic Rust that compiles on stable

## Error Handling
- Use `Result<T, E>` for recoverable errors
- Use `panic!` only for unrecoverable bugs
- Provide context with `.context()` from anyhow
- Create custom error types with thiserror for libraries

## Async Patterns
- Use Tokio as the default async runtime
- Prefer `tokio::spawn` for concurrent tasks
- Use `task::spawn_blocking` for CPU-intensive work
- Never block the async runtime

## Memory & Performance
- Minimize allocations where possible
- Use `Cow<str>` for flexible string handling
- Leverage the type system for compile-time guarantees
- Profile before optimizing";
        let tokio_skill = builtin_skill(
            "tokio-patterns",
            "Best practices for async programming with Tokio runtime",
            "# Tokio Best Practices

## Task Management
- Use `tokio::spawn` for fire-and-forget async tasks
- Use `tokio::spawn_blocking` for CPU-heavy synchronous work
- Use `JoinSet` for managing multiple concurrent tasks

## Channels
- Use `mpsc` for multi-producer, single-consumer scenarios
- Use `broadcast` for pub/sub patterns
- Use `oneshot` for request-response patterns

## Timeouts & Cancellation
- Always set timeouts with `tokio::time::timeout`
- Use `CancellationToken` for graceful shutdown
- Handle `JoinError` for task panics",
        );
        let error_skill = builtin_skill(
            "error-handling",
            "Rust error handling patterns using anyhow and thiserror",
            "# Rust Error Handling Patterns

## For Applications (use anyhow)
```rust
use anyhow::{Context, Result};

fn main() -> Result<()> {
    let config = load_config()
        .context(\"Failed to load configuration\")?;
    Ok(())
}
```

## For Libraries (use thiserror)
```rust
use thiserror::Error;

#[derive(Error, Debug)]
pub enum MyError {
    #[error(\"IO error: {0}\")]
    Io(#[from] std::io::Error),
    #[error(\"Invalid input: {message}\")]
    InvalidInput { message: String },
}
```",
        );
        let mut skills: Vec<Skill> = Vec::new();
        skills.push(tokio_skill);
        skills.push(error_skill);
        let mut mcp: Vec<McpTool> = Vec::new();
        mcp.push(context7_tool_exec());
        let r = AgentConfig {
            name: "rust-architect".to_owned(),
            version: "1.0.0".to_owned(),
            description: "Senior Rust Systems Engineer optimized for Tokio & zero-cost abstractions".to_owned(),
            author: "ahmed6ww".to_owned(),
            identity: Identity {
                model: Some("cloud-3-5-sonnet-latest".to_owned()),
                icon: Some("🦀".to_owned()),
                system_prompt: prompt.to_owned(),
            },
            skills,
            mcp,
        };
        r
    }

    /// The built-in full-stack web development agent.
    pub fn fullstack_next_agent(&self) -> (r: AgentConfig)
        ensures
            fullstack_next_shape(r@),
    {
        let prompt = "You are a full-stack development expert specializing in modern web applications.

## Tech Stack Expertise
- **Frontend**: Next.js 15 with App Router, React 19, TypeScript
- **UI**: ShadcnUI, Tailwind CSS, Radix UI primitives
- **Backend**: FastAPI (Python), SQLAlchemy, Pydantic
- **Database**: PostgreSQL, Redis for caching

## Next.js 15 Patterns
- Use Server Components by default
- Use 'use client' directive only when needed
- Leverage Server Actions for mutations
- Use Suspense for loading states

## API Design
- RESTful endpoints with FastAPI
- Pydantic models for validation
- Proper HTTP status codes
- OpenAPI documentation

## Best Practices
- TypeScript strict mode
- Zod for runtime validation
- React Query for data fetching
- Proper error boundaries";
        let next_skill = builtin_skill(
            "nextjs-patterns",
            "Next.js 15 patterns for Server Components, Client Components, and Server Actions",
            "# Next.js 15 Patterns

## Server Components (Default)
```tsx
// app/users/page.tsx
async function UsersPage() {
  const users = await fetchUsers();
  return <UserList users={users} />;
}
```

## Client Components
```tsx
'use client';
import { useState } from 'react';

export function Counter() {
  const [count, setCount] = useState(0);
  return <button onClick={() => setCount(c => c + 1)}>{count}</button>;
}
```

## Server Actions
```tsx
'use server';
export async function createUser(formData: FormData) {
  // Runs on the server
}
```",
        );
        let mut skills: Vec<Skill> = Vec::new();
        skills.push(next_skill);
        let mut mcp: Vec<McpTool> = Vec::new();
        mcp.push(context7_tool_exec());
        AgentConfig {
            name: "fullstack-next".to_owned(),
            version: "1.0.0".to_owned(),
            description: "Next.js 15 + FastAPI + ShadcnUI full-stack expert".to_owned(),
            author: "ahmed6ww".to_owned(),
            identity: Identity {
                model: Some("cloud-3-5-sonnet-latest".to_owned()),
                icon: Some("⚡".to_owned()),
                system_prompt: prompt.to_owned(),
            },
            skills,
            mcp,
        }
    }

    /// The built-in testing and quality-assurance agent.
    pub fn qa_testing_squad_agent(&self) -> (r: AgentConfig)
        ensures
            qa_testing_squad_shape(r@),
    {
        let prompt = "You are a QA and testing specialist focused on automated testing.

## Testing Expertise
- **E2E Testing**: Playwright for browser automation
- **Unit Testing**: Jest + React Testing Library
- **API Testing**: Supertest, pytest
- **Performance**: Lighthouse, k6

## Testing Principles
- Write tests that provide confidence, not coverage
- Follow the Testing Trophy (more integration tests)
- Use Page Object Model for E2E tests
- Mock at the network boundary

## Playwright Best Practices
- Use locators that are resilient to change
- Prefer user-visible locators (role, text, label)
- Use fixtures for test setup
- Run tests in parallel

## Jest Patterns
- Test behavior, not implementation
- Use describe blocks for organization
- Mock outside dependencies only
- Keep tests focused and fast";
        let pw_skill = builtin_skill(
            "playwright-setup",
            "Playwright configuration and Page Object Model patterns for E2E testing",
            "# Playwright Configuration

## playwright.config.ts
```typescript
import { defineConfig } from '@playwright/test';

export default defineConfig({
  testDir: './e2e',
  fullyParallel: true,
  retries: process.env.CI ? 2 : 0,
  reporter: 'html',
  use: {
    baseURL: 'http://localhost:3000',
    trace: 'on-first-retry',
  },
});
```

## Page Object Example
```typescript
export class LoginPage {
  constructor(private page: Page) {}

  async login(email: string, password: string) {
    await this.page.getByLabel('Email').fill(email);
    await this.page.getByLabel('Password').fill(password);
    await this.page.getByRole('button', { name: 'Sign in' }).click();
  }
}
```",
        );
        let mut skills: Vec<Skill> = Vec::new();
        skills.push(pw_skill);
        let mut mcp: Vec<McpTool> = Vec::new();
        mcp.push(context7_tool_exec());
        AgentConfig {
            name: "qa-testing-squad".to_owned(),
            version: "1.0.0".to_owned(),
            description: "Playwright + Jest testing configuration specialist".to_owned(),
            author: "ahmed6ww".to_owned(),
            identity: Identity {
                model: Some("cloud-3-5-sonnet-latest".to_owned()),
                icon: Some("🧪".to_owned()),
                system_prompt: prompt.to_owned(),
            },
            skills,
            mcp,
        }
    }
}

} // verus!
